use zeroclaw::plugin_proto::{
    build_plugin_request, draft_payload_json, empty_payload_json, interpret_plugin_output,
    json_string, reaction_payload_json, send_payload_json, CommandPluginChannel,
    CommandPluginMemory, MemoryCategory, PluginInboundMessage,
};
use zeroclaw::message::SendMessage;
use zeroclaw::plugins::{PluginKind, PluginSource, ResolvedPlugin};

fn test_plugin(id: &str) -> ResolvedPlugin {
    ResolvedPlugin {
        id: id.to_string(),
        kind: PluginKind::Channel,
        command: "true".to_string(),
        args: Vec::new(),
        env: Vec::new(),
        timeout_secs: 5,
        source: PluginSource::Config,
    }
}

#[test]
fn inbound_message_defaults_are_filled() {
    let msg = PluginInboundMessage {
        id: None,
        sender: "alice".to_string(),
        reply_target: None,
        content: "hello".to_string(),
        channel: None,
        timestamp: None,
        thread_ts: None,
    };

    let mapped = msg.into_channel_message("plugin:test");
    assert_eq!(mapped.sender, "alice");
    assert_eq!(mapped.reply_target, "alice");
    assert_eq!(mapped.channel, "plugin:test");
    assert!(!mapped.id.is_empty());
    assert!(mapped.timestamp > 0);
}

#[test]
fn inbound_message_keeps_explicit_fields() {
    let msg = PluginInboundMessage {
        id: Some("m-7".to_string()),
        sender: "bob".to_string(),
        reply_target: Some("room".to_string()),
        content: "hi".to_string(),
        channel: Some("matrix".to_string()),
        timestamp: Some(1234),
        thread_ts: Some("t1".to_string()),
    };

    let mapped = msg.into_channel_message("plugin:test");
    assert_eq!(mapped.id, "m-7");
    assert_eq!(mapped.reply_target, "room");
    assert_eq!(mapped.channel, "matrix");
    assert_eq!(mapped.timestamp, 1234);
    assert_eq!(mapped.thread_ts.as_deref(), Some("t1"));
}

#[test]
fn blank_inbound_id_is_synthesized_from_channel_and_timestamp() {
    let msg = PluginInboundMessage {
        id: Some("   ".to_string()),
        sender: "bob".to_string(),
        reply_target: None,
        content: "hi".to_string(),
        channel: Some("irc".to_string()),
        timestamp: Some(99),
        thread_ts: None,
    };
    let mapped = msg.into_channel_message("plugin:test");
    assert_eq!(mapped.id, "irc:99");
}

#[test]
fn json_string_escapes_quotes_backslashes_and_controls() {
    assert_eq!(json_string("plain"), "\"plain\"");
    assert_eq!(json_string("a\"b"), "\"a\\\"b\"");
    assert_eq!(json_string("a\\b"), "\"a\\\\b\"");
    assert_eq!(json_string("a\nb\tc"), "\"a\\nb\\tc\"");
    assert_eq!(json_string("x\u{1}y"), "\"x\\u0001y\"");
    let parsed: serde_json::Value = serde_json::from_str(&json_string("a\"\\\n\u{2}")).unwrap();
    assert_eq!(parsed.as_str().unwrap(), "a\"\\\n\u{2}");
}

#[test]
fn plugin_request_document_is_well_formed_json() {
    let channel = CommandPluginChannel::new(test_plugin("echo-chan"));
    assert_eq!(channel.name(), "plugin:echo-chan");
    let message = SendMessage::new("hi \"you\"".to_string(), "alice");
    let payload = send_payload_json(&message);
    let request = channel.request_json("send", &payload);
    let v: serde_json::Value = serde_json::from_str(&request).unwrap();
    assert_eq!(v["protocol"], "zeroclaw-plugin-v1");
    assert_eq!(v["subsystem"], "channel");
    assert_eq!(v["plugin"], "echo-chan");
    assert_eq!(v["operation"], "send");
    assert_eq!(v["payload"]["content"], "hi \"you\"");
    assert_eq!(v["payload"]["recipient"], "alice");
    assert!(v["payload"]["subject"].is_null());
    assert!(v["payload"]["thread_ts"].is_null());
}

#[test]
fn memory_store_request_carries_category_and_session() {
    let memory = CommandPluginMemory::new(test_plugin("mem"));
    assert_eq!(memory.name(), "plugin:mem");
    let payload = zeroclaw::plugin_proto::store_payload_json(
        "key1",
        "remember this",
        MemoryCategory::Conversation,
        Some("s9"),
    );
    let request = memory.request_json("store", &payload);
    let v: serde_json::Value = serde_json::from_str(&request).unwrap();
    assert_eq!(v["subsystem"], "memory");
    assert_eq!(v["payload"]["key"], "key1");
    assert_eq!(v["payload"]["category"], "conversation");
    assert_eq!(v["payload"]["session_id"], "s9");
}

#[test]
fn draft_and_reaction_payloads_are_well_formed() {
    let draft: serde_json::Value =
        serde_json::from_str(&draft_payload_json("alice", "m1", "text so far")).unwrap();
    assert_eq!(draft["recipient"], "alice");
    assert_eq!(draft["message_id"], "m1");
    assert_eq!(draft["text"], "text so far");

    let reaction: serde_json::Value =
        serde_json::from_str(&reaction_payload_json("chan", "m1", "\u{1F440}")).unwrap();
    assert_eq!(reaction["channel_id"], "chan");
    assert_eq!(reaction["emoji"], "\u{1F440}");

    let empty: serde_json::Value = serde_json::from_str(&empty_payload_json()).unwrap();
    assert!(empty.as_object().unwrap().is_empty());
}

#[test]
fn plugin_failure_with_error_text_surfaces_the_detail() {
    let r = interpret_plugin_output(
        "channel",
        "probe",
        "listen",
        true,
        "0",
        "",
        "{\"ok\":false,\"error\":\"boom\"}",
    );
    let err = r.unwrap_err();
    assert!(err.contains("boom"));
    assert!(err.contains("probe"));
    assert!(err.contains("listen"));
}

#[test]
fn plugin_success_carries_the_data_member() {
    let r = interpret_plugin_output(
        "memory",
        "probe",
        "count",
        true,
        "0",
        "",
        "{\"ok\":true,\"data\":7}",
    );
    let data = r.unwrap().unwrap();
    let v: serde_json::Value = serde_json::from_str(&data).unwrap();
    assert_eq!(v.as_u64(), Some(7));
}

#[test]
fn plugin_success_without_data_is_empty() {
    let r = interpret_plugin_output("channel", "probe", "send", true, "0", "", "{\"ok\":true}");
    assert!(r.unwrap().is_none());
}

#[test]
fn nonzero_exit_is_a_hard_failure() {
    let r = interpret_plugin_output(
        "security",
        "probe",
        "policy_overrides",
        false,
        "3",
        "bad things",
        "",
    );
    let err = r.unwrap_err();
    assert!(err.contains("exited with status 3"));
    assert!(err.contains("bad things"));
}

#[test]
fn empty_stdout_is_a_hard_failure() {
    let r = interpret_plugin_output("channel", "probe", "send", true, "0", "", "");
    assert!(r.unwrap_err().contains("empty response"));
}

#[test]
fn unparseable_stdout_is_a_hard_failure() {
    let r = interpret_plugin_output("channel", "probe", "send", true, "0", "", "not json");
    assert!(r.unwrap_err().contains("decode"));
}

#[test]
fn blank_error_text_reads_as_unknown_plugin_error() {
    let r = interpret_plugin_output(
        "channel",
        "probe",
        "send",
        true,
        "0",
        "",
        "{\"ok\":false,\"error\":\"  \"}",
    );
    assert!(r.unwrap_err().contains("unknown plugin error"));
}
