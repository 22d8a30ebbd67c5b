use aida::event::{AgentMessage, ClassLoadEvent, MethodEvent};
use aida::hook::{
    agent_on_load, agent_on_unload, class_load, class_load_at, interesting_class, method_entry,
    method_entry_at, method_exit, method_exit_at, vm_init,
};
use aida::policy::Config;

fn names(list: &[&str]) -> Vec<String> {
    list.iter().map(|s| s.to_string()).collect()
}

fn policy(classes: &[&str], methods: &[&str]) -> Config {
    Config { jar: "app.jar".to_string(), class_loads: names(classes), methods: names(methods) }
}

const FOO: &str = "Lcom/example/Foo;";
const BAR: &str = "Lcom/example/Bar;";

#[test]
fn listed_class_is_reported_under_its_dotted_name() {
    let config = policy(&["com.example.Foo"], &[]);
    assert_eq!(
        class_load_at(&config, Some(FOO), 1_662_921_288_000_000),
        Some(AgentMessage::ClassLoad(ClassLoadEvent {
            timestamp: 1_662_921_288_000_000,
            name: "com.example.Foo".to_string(),
        }))
    );
}

#[test]
fn unlisted_class_is_suppressed() {
    let config = policy(&["com.example.Foo"], &["com.example.Bar"]);
    assert_eq!(class_load_at(&config, Some(BAR), 5), None);
    assert_eq!(class_load(&config, Some(BAR)), None);
    assert_eq!(interesting_class(&config, Some(BAR)), None);
}

#[test]
fn filter_compares_the_dotted_name() {
    let config = policy(&["com/example/Foo", "Lcom/example/Foo;"], &[]);
    assert_eq!(class_load_at(&config, Some(FOO), 5), None);
}

#[test]
fn empty_class_list_suppresses_every_class() {
    let config = policy(&[], &["run"]);
    assert_eq!(class_load_at(&config, Some(FOO), 5), None);
    assert_eq!(class_load(&config, Some(FOO)), None);
}

#[test]
fn class_without_signature_is_dropped() {
    let config = policy(&["com.example.Foo", ""], &[]);
    assert_eq!(class_load_at(&config, None, 5), None);
    assert_eq!(class_load(&config, None), None);
}

#[test]
fn class_with_malformed_signature_is_dropped() {
    let config = policy(&["com.example.Foo", "I", "", "com.example.Foo;"], &[]);
    assert_eq!(class_load_at(&config, Some("[I"), 5), None);
    assert_eq!(class_load_at(&config, Some("I"), 5), None);
    assert_eq!(class_load_at(&config, Some(""), 5), None);
    assert_eq!(class_load_at(&config, Some("Lcom/example/Foo"), 5), None);
    assert_eq!(class_load_at(&config, Some("com/example/Foo;"), 5), None);
}

#[test]
fn class_load_is_stamped_by_the_clock() {
    let config = policy(&["com.example.Foo"], &[]);
    match class_load(&config, Some(FOO)) {
        Some(AgentMessage::ClassLoad(event)) => {
            assert_eq!(event.name, "com.example.Foo");
            // Later than the first of January 2020, in microseconds.
            assert!(event.timestamp > 1_577_836_800_000_000);
        }
        other => panic!("expected a class load, got {:?}", other),
    }
}

#[test]
fn clock_readings_are_not_negative() {
    let config = policy(&["com.example.Foo"], &[]);
    let first = class_load(&config, Some(FOO));
    let second = class_load(&config, Some(FOO));
    match (first, second) {
        (Some(AgentMessage::ClassLoad(a)), Some(AgentMessage::ClassLoad(b))) => {
            assert!(a.timestamp >= 0);
            assert!(b.timestamp >= 0);
        }
        other => panic!("expected two class loads, got {:?}", other),
    }
}

#[test]
fn listed_method_entry_is_reported() {
    let config = policy(&[], &["run"]);
    assert_eq!(
        method_entry_at(&config, Some("run"), Some(FOO), 17),
        Some(AgentMessage::MethodEvent(MethodEvent::Entry {
            timestamp: 17,
            name: "run".to_string(),
            class_name: "com.example.Foo".to_string(),
        }))
    );
}

#[test]
fn listed_method_exit_is_reported() {
    let config = policy(&[], &["run"]);
    assert_eq!(
        method_exit_at(&config, Some("run"), Some(FOO), 18),
        Some(AgentMessage::MethodEvent(MethodEvent::Exit {
            timestamp: 18,
            name: "run".to_string(),
            class_name: "com.example.Foo".to_string(),
        }))
    );
}

#[test]
fn unlisted_method_is_suppressed() {
    let config = policy(&["main", "com.example.Foo"], &["run"]);
    assert_eq!(method_entry_at(&config, Some("main"), Some(FOO), 1), None);
    assert_eq!(method_exit_at(&config, Some("main"), Some(FOO), 1), None);
    assert_eq!(method_entry(&config, Some("main"), Some(FOO)), None);
    assert_eq!(method_exit(&config, Some("main"), Some(FOO)), None);
}

#[test]
fn empty_method_list_suppresses_every_method() {
    let config = policy(&["com.example.Foo"], &[]);
    assert_eq!(method_entry_at(&config, Some("run"), Some(FOO), 1), None);
    assert_eq!(method_exit_at(&config, Some("run"), Some(FOO), 1), None);
}

#[test]
fn method_filter_ignores_the_class_filter() {
    let config = policy(&["com.example.Foo"], &["run"]);
    assert_eq!(
        method_entry_at(&config, Some("run"), Some(BAR), 3),
        Some(AgentMessage::MethodEvent(MethodEvent::Entry {
            timestamp: 3,
            name: "run".to_string(),
            class_name: "com.example.Bar".to_string(),
        }))
    );
}

#[test]
fn method_without_a_name_is_dropped() {
    let config = policy(&[], &["run", ""]);
    assert_eq!(method_entry_at(&config, None, Some(FOO), 1), None);
    assert_eq!(method_exit_at(&config, None, Some(FOO), 1), None);
}

#[test]
fn method_without_a_declaring_class_is_dropped() {
    let config = policy(&[], &["run"]);
    assert_eq!(method_entry_at(&config, Some("run"), None, 1), None);
    assert_eq!(method_exit_at(&config, Some("run"), None, 1), None);
    assert_eq!(method_entry_at(&config, Some("run"), Some("[I"), 1), None);
    assert_eq!(method_exit_at(&config, Some("run"), Some("Lcom/example/Foo"), 1), None);
    assert_eq!(method_entry(&config, Some("run"), None), None);
    assert_eq!(method_exit(&config, Some("run"), Some("")), None);
}

#[test]
fn method_events_are_stamped_by_the_clock() {
    let config = policy(&[], &["run"]);
    match method_entry(&config, Some("run"), Some(FOO)) {
        Some(AgentMessage::MethodEvent(MethodEvent::Entry { timestamp, name, class_name })) => {
            assert!(timestamp > 1_577_836_800_000_000);
            assert_eq!(name, "run");
            assert_eq!(class_name, "com.example.Foo");
        }
        other => panic!("expected an entry, got {:?}", other),
    }
    match method_exit(&config, Some("run"), Some(FOO)) {
        Some(AgentMessage::MethodEvent(MethodEvent::Exit { timestamp, name, class_name })) => {
            assert!(timestamp > 1_577_836_800_000_000);
            assert_eq!(name, "run");
            assert_eq!(class_name, "com.example.Foo");
        }
        other => panic!("expected an exit, got {:?}", other),
    }
}

#[test]
fn lifecycle_envelopes_need_no_policy() {
    assert_eq!(agent_on_load(), AgentMessage::Load);
    assert_eq!(vm_init(), AgentMessage::VmInit);
    assert_eq!(agent_on_unload(), AgentMessage::Unload);
}
