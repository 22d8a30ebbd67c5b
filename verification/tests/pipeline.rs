use aida::event::{AgentMessage, ClassLoadEvent, MethodEvent};
use aida::hook::{
    agent_on_load, agent_on_unload, class_load_at, method_entry_at, method_exit_at, vm_init,
};
use aida::policy::Config;
use aida::relay::Relay;
use aida::session::App;

fn policy(classes: &[&str], methods: &[&str]) -> Config {
    Config {
        jar: "app.jar".to_string(),
        class_loads: classes.iter().map(|s| s.to_string()).collect(),
        methods: methods.iter().map(|s| s.to_string()).collect(),
    }
}

/// Hands the produced envelopes through a relay into the session's channel
/// and polls until nothing is left. Gives back how many envelopes the relay
/// handed on.
fn run_session(app: &mut App, produced: Vec<AgentMessage>) -> usize {
    let tx = app.sender();
    let mut relay = Relay::new();
    let mut handed_on = 0;
    for msg in produced {
        if relay.forward(&msg) {
            tx.send(msg).unwrap();
            handed_on += 1;
        }
    }
    while app.receive_agent_msg().unwrap().is_some() {}
    handed_on
}

fn produce(out: &mut Vec<AgentMessage>, msg: Option<AgentMessage>) {
    if let Some(msg) = msg {
        out.push(msg);
    }
}

#[test]
fn relay_hands_on_everything_up_to_unload() {
    let mut relay = Relay::new();
    assert!(!relay.is_closed());
    assert!(relay.forward(&AgentMessage::Load));
    assert!(relay.forward(&AgentMessage::VmInit));
    assert!(!relay.is_closed());
    assert!(relay.forward(&AgentMessage::Unload));
    assert!(relay.is_closed());
}

#[test]
fn relay_hands_on_nothing_behind_unload() {
    let mut relay = Relay::new();
    assert!(relay.forward(&AgentMessage::Unload));
    assert!(!relay.forward(&AgentMessage::VmInit));
    assert!(!relay.forward(&AgentMessage::Unload));
    assert!(!relay.forward(&AgentMessage::Load));
    assert!(relay.is_closed());
}

#[test]
fn unload_is_received_last_and_once() {
    let mut app = App::new(policy(&[], &[]), "aida.toml".to_string());
    let produced = vec![
        AgentMessage::Load,
        AgentMessage::VmInit,
        AgentMessage::Unload,
        AgentMessage::VmInit,
        AgentMessage::Unload,
    ];
    assert_eq!(run_session(&mut app, produced), 3);
    assert!(app.finished());
    assert!(!app.running());
    assert_eq!(app.events(), &vec![AgentMessage::VmInit]);
}

#[test]
fn consumer_sees_the_producer_order() {
    let config = policy(&["a.A", "a.B", "a.C"], &["m"]);
    let mut produced = vec![agent_on_load(), vm_init()];
    produce(&mut produced, class_load_at(&config, Some("La/C;"), 1));
    produce(&mut produced, method_entry_at(&config, Some("m"), Some("La/C;"), 2));
    produce(&mut produced, class_load_at(&config, Some("La/A;"), 3));
    produce(&mut produced, method_exit_at(&config, Some("m"), Some("La/C;"), 4));
    produce(&mut produced, class_load_at(&config, Some("La/B;"), 5));
    produced.push(agent_on_unload());
    let expected: Vec<AgentMessage> = produced[1..produced.len() - 1].to_vec();
    assert_eq!(expected.len(), 6);

    let mut app = App::new(config, "aida.toml".to_string());
    assert_eq!(run_session(&mut app, produced), 8);
    assert_eq!(app.events(), &expected);
    assert!(app.finished());
}

#[test]
fn only_the_listed_class_reaches_the_log() {
    let config = policy(&["com.example.Foo"], &[]);
    let mut produced = vec![agent_on_load()];
    produce(&mut produced, class_load_at(&config, Some("Lcom/example/Foo;"), 10));
    produce(&mut produced, class_load_at(&config, Some("Lcom/example/Bar;"), 11));
    produced.push(agent_on_unload());

    let mut app = App::new(config, "aida.toml".to_string());
    let tx = app.sender();
    for msg in produced {
        tx.send(msg).unwrap();
    }
    // Load, the class load, then the poll that observes Unload.
    assert!(app.receive_agent_msg().unwrap().is_some());
    assert!(app.running());
    assert!(app.receive_agent_msg().unwrap().is_some());
    let last = app.receive_agent_msg().unwrap().unwrap();
    assert!(!last.running);
    assert!(last.finished);
    assert!(!app.running());
    assert!(app.finished());
    assert_eq!(
        app.events(),
        &vec![AgentMessage::ClassLoad(ClassLoadEvent {
            timestamp: 10,
            name: "com.example.Foo".to_string(),
        })]
    );
    assert_eq!(app.receive_agent_msg(), Ok(None));
}

#[test]
fn one_call_shows_one_entry_then_one_exit() {
    let config = policy(&[], &["run"]);
    let mut produced = vec![agent_on_load()];
    produce(&mut produced, method_entry_at(&config, Some("main"), Some("Lcom/example/Foo;"), 1));
    produce(&mut produced, method_entry_at(&config, Some("run"), Some("Lcom/example/Foo;"), 2));
    produce(&mut produced, method_entry_at(&config, Some("helper"), Some("Lcom/example/Foo;"), 3));
    produce(&mut produced, method_exit_at(&config, Some("helper"), Some("Lcom/example/Foo;"), 4));
    produce(&mut produced, method_exit_at(&config, Some("run"), Some("Lcom/example/Foo;"), 5));
    produce(&mut produced, method_exit_at(&config, Some("main"), Some("Lcom/example/Foo;"), 6));
    produced.push(agent_on_unload());

    let mut app = App::new(config, "aida.toml".to_string());
    run_session(&mut app, produced);
    assert_eq!(
        app.events(),
        &vec![
            AgentMessage::MethodEvent(MethodEvent::Entry {
                timestamp: 2,
                name: "run".to_string(),
                class_name: "com.example.Foo".to_string(),
            }),
            AgentMessage::MethodEvent(MethodEvent::Exit {
                timestamp: 5,
                name: "run".to_string(),
                class_name: "com.example.Foo".to_string(),
            }),
        ]
    );
    assert!(app.finished());
}

#[test]
fn raw_name_is_observed_in_dotted_form() {
    let config = policy(&["com.example.Foo"], &[]);
    let mut app = App::new(policy(&["com.example.Foo"], &[]), "aida.toml".to_string());
    let produced = vec![
        class_load_at(&config, Some("Lcom/example/Foo;"), 99).unwrap(),
        agent_on_unload(),
    ];
    run_session(&mut app, produced);
    match &app.events()[0] {
        AgentMessage::ClassLoad(event) => assert_eq!(event.name, "com.example.Foo"),
        other => panic!("expected a class load, got {:?}", other),
    }
}
