use jet_agent::commands::{command_kind, Command, CommandKind};
use jet_agent::dispatch::{
    instance_outcome, list_outcome, on_message, reply_for, route, Outcome, Routing, SkipReason,
    Step,
};
use jet_agent::envelope::{CommandEnvelope, MalformedReason};
use jet_agent::instances::InstanceRecord;

fn record(name: &str, pid: u32) -> InstanceRecord {
    InstanceRecord {
        name: name.to_string(),
        pid,
        socket_path: format!("/run/{}.sock", name),
        jail_root: format!("/srv/jail/{}", name),
        container_id: format!("c-{}", name),
        ip: "10.0.0.7".to_string(),
        gateway: "10.0.0.1".to_string(),
        tap: format!("tap-{}", name),
        vcpus: 2,
        memory: 2048,
        description: "web \"front\"".to_string(),
        floating_ip: None,
        created_at: "2024-01-01T00:00:00Z".to_string(),
    }
}

fn envelope(command: &str, args: &[&str]) -> CommandEnvelope {
    CommandEnvelope {
        command: command.to_string(),
        args: args.iter().map(|a| a.to_string()).collect(),
    }
}

#[test]
fn instance_request_is_answered_on_reply_address() {
    let payload = br#"{"command":"instance","args":["vm-7"]}"#;
    let step = on_message(payload, Some("R".to_string()));
    let (command, reply_to) = match step {
        Step::Perform { command, reply_to } => (command, reply_to),
        Step::Skip(why) => panic!("skipped: {:?}", why),
    };
    match &command {
        Command::Instance { name } => assert_eq!(name, "vm-7"),
        _ => panic!("wrong command"),
    }
    let outcome = instance_outcome(&record("vm-7", 4242), true);
    let publish = reply_for(command.kind(), reply_to, outcome).expect("a reply");
    assert_eq!(publish.subject, "R");
    let value: serde_json::Value = serde_json::from_str(&publish.payload).unwrap();
    assert!(value.is_object());
    assert_eq!(value["name"], "vm-7");
    assert_eq!(value["pid"], 4242);
    assert_eq!(value["socket_path"], "/run/vm-7.sock");
    assert_eq!(value["jail_root"], "/srv/jail/vm-7");
    assert_eq!(value["container_id"], "c-vm-7");
    assert_eq!(value["ip"], "10.0.0.7");
    assert_eq!(value["gateway"], "10.0.0.1");
    assert_eq!(value["tap"], "tap-vm-7");
    assert_eq!(value["vcpus"], 2);
    assert_eq!(value["memory"], 2048);
    assert_eq!(value["description"], "web \"front\"");
    assert!(value["floating_ip"].is_null());
    assert_eq!(value["created_at"], "2024-01-01T00:00:00Z");
    assert_eq!(value["fc_status"], true);
}

#[test]
fn list_on_empty_registry_replies_empty_array() {
    let payload = br#"{"command":"list","args":[]}"#;
    let (command, reply_to) = match on_message(payload, Some("R".to_string())) {
        Step::Perform { command, reply_to } => (command, reply_to),
        Step::Skip(why) => panic!("skipped: {:?}", why),
    };
    assert_eq!(command.kind(), CommandKind::List);
    let outcome = list_outcome(&Vec::new(), &Vec::new());
    let publish = reply_for(command.kind(), reply_to, outcome).expect("a reply");
    assert_eq!(publish.subject, "R");
    assert_eq!(publish.payload, "[]");
}

#[test]
fn unknown_command_publishes_nothing() {
    let payload = br#"{"command":"bogus","args":[]}"#;
    match on_message(payload, Some("R".to_string())) {
        Step::Skip(why) => assert_eq!(why, SkipReason::UnknownCommand),
        Step::Perform { .. } => panic!("bogus must not run"),
    }
    match on_message(payload, None) {
        Step::Skip(why) => assert_eq!(why, SkipReason::UnknownCommand),
        Step::Perform { .. } => panic!("bogus must not run"),
    }
}

#[test]
fn command_names_are_case_sensitive() {
    assert_eq!(command_kind("list"), Some(CommandKind::List));
    assert_eq!(command_kind("List"), None);
    assert_eq!(command_kind("LIST"), None);
    assert_eq!(command_kind("list "), None);
    assert_eq!(command_kind("add-floating-ip"), Some(CommandKind::AddFloatingIp));
    assert_eq!(command_kind("create-storage"), Some(CommandKind::CreateStorage));
    assert_eq!(command_kind(""), None);
}

#[test]
fn no_reply_address_means_no_publish() {
    let kinds = [CommandKind::List, CommandKind::Instance, CommandKind::ListStorage, CommandKind::Delete];
    for k in kinds {
        assert!(reply_for(k, None, Outcome::Payload("[]".to_string())).is_none());
        assert!(reply_for(k, None, Outcome::Completed).is_none());
        assert!(reply_for(k, None, Outcome::Failed).is_none());
    }
}

#[test]
fn mutating_commands_and_failures_send_no_reply() {
    let r = Some("R".to_string());
    assert!(reply_for(CommandKind::Delete, r.clone(), Outcome::Payload("x".to_string())).is_none());
    assert!(reply_for(CommandKind::Create, r.clone(), Outcome::Completed).is_none());
    assert!(reply_for(CommandKind::List, r.clone(), Outcome::Failed).is_none());
    let m = reply_for(CommandKind::ListStorage, r, Outcome::Payload("[1]".to_string())).unwrap();
    assert_eq!(m.subject, "R");
    assert_eq!(m.payload, "[1]");
}

#[test]
fn missing_arguments_fail_the_handler() {
    match route(&envelope("delete", &[])) {
        Routing::MissingArguments(k) => assert_eq!(k, CommandKind::Delete),
        _ => panic!("delete without a name must fail"),
    }
    match route(&envelope("create", &["a", "b"])) {
        Routing::MissingArguments(k) => assert_eq!(k, CommandKind::Create),
        _ => panic!("create needs three arguments"),
    }
    match on_message(br#"{"command":"instance","args":[]}"#, Some("R".to_string())) {
        Step::Skip(why) => assert_eq!(why, SkipReason::MissingArguments(CommandKind::Instance)),
        Step::Perform { .. } => panic!("instance without a name must fail"),
    }
}

#[test]
fn arguments_are_read_by_position() {
    match route(&envelope("create", &["vm-1", "small", "x", "ignored"])) {
        Routing::Run(Command::Create { name, flavor, extra }) => {
            assert_eq!(name, "vm-1");
            assert_eq!(flavor, "small");
            assert_eq!(extra, "x");
        }
        _ => panic!("create must run"),
    }
    match route(&envelope("add-floating-ip", &["vm-2", "203.0.113.5"])) {
        Routing::Run(Command::AddFloatingIp { name, ip }) => {
            assert_eq!(name, "vm-2");
            assert_eq!(ip, "203.0.113.5");
        }
        _ => panic!("add-floating-ip must run"),
    }
    match route(&envelope("list-storage", &[])) {
        Routing::Run(Command::ListStorage) => {}
        _ => panic!("list-storage must run"),
    }
}

#[test]
fn malformed_payloads_are_classified() {
    let cases: Vec<(&[u8], MalformedReason)> = vec![
        (&[0xff, 0xfe, 0x7b], MalformedReason::InvalidUtf8),
        (b"not json", MalformedReason::NotAnObject),
        (b"[1,2]", MalformedReason::NotAnObject),
        (br#"{"args":["a"]}"#, MalformedReason::MissingCommand),
        (br#"{"command":7,"args":[]}"#, MalformedReason::MissingCommand),
        (br#"{"command":"list"}"#, MalformedReason::MissingArgs),
        (br#"{"command":"list","args":[1]}"#, MalformedReason::MissingArgs),
    ];
    for (payload, reason) in cases {
        match on_message(payload, Some("R".to_string())) {
            Step::Skip(why) => assert_eq!(why, SkipReason::Malformed(reason)),
            Step::Perform { .. } => panic!("malformed payload must not run"),
        }
    }
}

#[test]
fn list_keeps_registry_order_and_observed_liveness() {
    let records = vec![record("b", 2), record("a", 1), record("c", 3)];
    let first = match list_outcome(&records, &vec![true, true, false]) {
        Outcome::Payload(t) => t,
        _ => panic!("list must encode"),
    };
    let value: serde_json::Value = serde_json::from_str(&first).unwrap();
    let items = value.as_array().unwrap();
    assert_eq!(items.len(), 3);
    assert_eq!(items[0]["name"], "b");
    assert_eq!(items[1]["name"], "a");
    assert_eq!(items[2]["name"], "c");
    assert_eq!(items[0]["fc_status"], true);
    assert_eq!(items[2]["fc_status"], false);
    let second = match list_outcome(&records, &vec![false, true, false]) {
        Outcome::Payload(t) => t,
        _ => panic!("list must encode"),
    };
    let value: serde_json::Value = serde_json::from_str(&second).unwrap();
    assert_eq!(value[0]["name"], "b");
    assert_eq!(value[0]["fc_status"], false);
    assert_eq!(value[1]["fc_status"], true);
}
