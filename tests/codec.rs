use jet_agent::envelope::{
    decode_envelope, decode_text, encode_envelope, envelope_from_members, find_member,
    CommandEnvelope, DecodeError, MalformedReason,
};
use jet_agent::instances::{decimal_text, encode_summaries, encode_summary, summarize, InstanceRecord};
use jet_agent::runtime::{runtime_unavailable_is_fatal, status_filter, ContainerSummary, Phase};
use jet_agent::text::{command_subject, same_text};

#[test]
fn envelope_round_trips() {
    let e = CommandEnvelope {
        command: "add-description".to_string(),
        args: vec!["vm-3".to_string(), "a \"quoted\" \\ note\nüñï".to_string(), String::new()],
    };
    let text = encode_envelope(&e);
    let back = decode_envelope(text.as_bytes()).unwrap();
    assert_eq!(back.command, e.command);
    assert_eq!(back.args, e.args);
    let again = decode_text(&text).unwrap();
    assert_eq!(again.command, "add-description");
    assert_eq!(again.args.len(), 3);
}

#[test]
fn envelope_wire_form() {
    let e = CommandEnvelope { command: "list".to_string(), args: vec![] };
    assert_eq!(encode_envelope(&e), r#"{"args":[],"command":"list"}"#);
    let e = CommandEnvelope { command: "stop".to_string(), args: vec!["vm-1".to_string()] };
    assert_eq!(encode_envelope(&e), r#"{"args":["vm-1"],"command":"stop"}"#);
}

#[test]
fn string_escapes_in_wire_form() {
    let e = CommandEnvelope {
        command: "a\"b\\c\u{1}\t\n\u{1f}\u{7f}é".to_string(),
        args: vec!["x\ry".to_string()],
    };
    let expected = "{\"args\":[\"x\\ry\"],\"command\":\"a\\\"b\\\\c\\u0001\\t\\n\\u001f\u{7f}é\"}";
    assert_eq!(encode_envelope(&e), expected);
    let back = decode_text(expected).unwrap();
    assert_eq!(back.command, e.command);
    assert_eq!(back.args, e.args);
}

#[test]
fn decoding_ignores_spacing_order_and_other_members() {
    let e = decode_text(r#" { "extra": {"x": 1}, "args" : ["a", "b"], "command" : "restart" } "#)
        .unwrap();
    assert_eq!(e.command, "restart");
    assert_eq!(e.args, vec!["a".to_string(), "b".to_string()]);
}

#[test]
fn missing_command_is_malformed() {
    match decode_envelope(br#"{"args":[]}"#) {
        Err(DecodeError::MalformedMessage(r)) => assert_eq!(r, MalformedReason::MissingCommand),
        Ok(_) => panic!("must fail"),
    }
    match decode_envelope(b"\xc3\x28") {
        Err(DecodeError::MalformedMessage(r)) => assert_eq!(r, MalformedReason::InvalidUtf8),
        Ok(_) => panic!("must fail"),
    }
}

#[test]
fn members_are_found_by_exact_key() {
    let members = vec![
        ("Command".to_string(), "\"x\"".to_string()),
        ("command".to_string(), "\"list\"".to_string()),
        ("args".to_string(), "[]".to_string()),
    ];
    assert_eq!(find_member(&members, "command"), Some("\"list\"".to_string()));
    assert_eq!(find_member(&members, "args"), Some("[]".to_string()));
    assert_eq!(find_member(&members, "arg"), None);
    let e = envelope_from_members(&members).unwrap();
    assert_eq!(e.command, "list");
    assert!(e.args.is_empty());
}

#[test]
fn decimal_numbers() {
    assert_eq!(decimal_text(0), "0");
    assert_eq!(decimal_text(7), "7");
    assert_eq!(decimal_text(10), "10");
    assert_eq!(decimal_text(4096), "4096");
    assert_eq!(decimal_text(u64::MAX), "18446744073709551615");
}

#[test]
fn summary_object_text() {
    let r = InstanceRecord {
        name: "vm".to_string(),
        pid: 12,
        socket_path: "/s".to_string(),
        jail_root: "/j".to_string(),
        container_id: "c".to_string(),
        ip: "i".to_string(),
        gateway: "g".to_string(),
        tap: "t".to_string(),
        vcpus: 1,
        memory: 512,
        description: "".to_string(),
        floating_ip: Some("1.2.3.4".to_string()),
        created_at: "now".to_string(),
    };
    let s = summarize(&r, false);
    let expected = r#"{"name":"vm","pid":12,"socket_path":"/s","jail_root":"/j","container_id":"c","ip":"i","gateway":"g","tap":"t","vcpus":1,"memory":512,"description":"","floating_ip":"1.2.3.4","created_at":"now","fc_status":false}"#;
    assert_eq!(encode_summary(&s), expected);
    let two = encode_summaries(&vec![summarize(&r, true), summarize(&r, false)]);
    let value: serde_json::Value = serde_json::from_str(&two).unwrap();
    assert_eq!(value.as_array().unwrap().len(), 2);
    assert_eq!(value[0]["fc_status"], true);
    assert_eq!(value[1]["floating_ip"], "1.2.3.4");
    assert_eq!(encode_summaries(&Vec::new()), "[]");
}

#[test]
fn subject_is_prefixed_agent_id() {
    assert_eq!(command_subject("agent-42"), "dockerd-agent-42");
    assert_eq!(command_subject(""), "dockerd-");
}

#[test]
fn text_comparison() {
    assert!(same_text("abc", "abc"));
    assert!(!same_text("abc", "abd"));
    assert!(!same_text("abc", "ab"));
    assert!(same_text("", ""));
}

#[test]
fn container_listing_filter() {
    let (key, states) = status_filter();
    assert_eq!(key, "status");
    assert_eq!(states, vec!["exited", "running", "created", "removing", "paused", "dead"]);
    assert!(!states.iter().any(|s| s == "restarting"));
}

#[test]
fn runtime_failure_policy() {
    assert!(runtime_unavailable_is_fatal(Phase::Startup));
    assert!(!runtime_unavailable_is_fatal(Phase::SteadyState));
    assert_eq!(ContainerSummary::empty().len(), 0);
    assert_eq!(ContainerSummary::new(Vec::new()).containers.len(), 0);
}
