use aida::event::{AgentMessage, ClassLoadEvent, MethodEvent};

fn entry() -> MethodEvent {
    MethodEvent::Entry {
        timestamp: 1_000_444,
        name: "run".to_string(),
        class_name: "com.example.Foo".to_string(),
    }
}

fn exit() -> MethodEvent {
    MethodEvent::Exit {
        timestamp: -7,
        name: "stop".to_string(),
        class_name: "com.example.Bar".to_string(),
    }
}

#[test]
fn method_event_reports_its_timestamp() {
    assert_eq!(entry().timestamp(), 1_000_444);
    assert_eq!(exit().timestamp(), -7);
}

#[test]
fn method_event_reports_its_name() {
    assert_eq!(entry().name(), "run");
    assert_eq!(exit().name(), "stop");
}

#[test]
fn method_event_reports_its_class() {
    assert_eq!(entry().class_name(), "com.example.Foo");
    assert_eq!(exit().class_name(), "com.example.Bar");
}

#[test]
fn entry_and_exit_differ() {
    let left = MethodEvent::Exit {
        timestamp: 1_000_444,
        name: "run".to_string(),
        class_name: "com.example.Foo".to_string(),
    };
    assert_ne!(entry(), left);
}

#[test]
fn clone_keeps_every_field() {
    let event = ClassLoadEvent { timestamp: 42, name: "com.example.Foo".to_string() };
    assert_eq!(event.clone(), event);
    assert_eq!(entry().clone(), entry());
    assert_eq!(exit().clone(), exit());
    let msg = AgentMessage::MethodEvent(exit());
    assert_eq!(msg.clone(), msg);
    assert_eq!(AgentMessage::Load.clone(), AgentMessage::Load);
    assert_eq!(AgentMessage::VmInit.clone(), AgentMessage::VmInit);
    assert_eq!(AgentMessage::Unload.clone(), AgentMessage::Unload);
}

#[test]
fn only_unload_ends_a_session() {
    assert!(AgentMessage::Unload.ends_session());
    assert!(!AgentMessage::Load.ends_session());
    assert!(!AgentMessage::VmInit.ends_session());
    assert!(!AgentMessage::MethodEvent(entry()).ends_session());
    assert!(!AgentMessage::ClassLoad(ClassLoadEvent { timestamp: 0, name: String::new() })
        .ends_session());
}

#[test]
fn load_and_unload_are_not_logged() {
    assert!(!AgentMessage::Load.is_logged());
    assert!(!AgentMessage::Unload.is_logged());
    assert!(AgentMessage::VmInit.is_logged());
    assert!(AgentMessage::MethodEvent(exit()).is_logged());
    assert!(AgentMessage::ClassLoad(ClassLoadEvent { timestamp: 0, name: String::new() })
        .is_logged());
}
