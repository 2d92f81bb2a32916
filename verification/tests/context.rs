use plugin_bridge::callbacks::HostCallbacks;
use plugin_bridge::message::plugin_message::{
    generate_message_id, message_id_for, plugin_message_payload, send_message_to_frontend,
    PluginMessage,
};
use plugin_bridge::handler::PluginHandler;
use plugin_bridge::metadata::{HistoryMessage, PluginInstanceContext, PluginMetadata};
use plugin_bridge::placeholder_for_compatibility;
use std::cell::RefCell;
use std::rc::Rc;

struct Desk {
    sent: Rc<RefCell<Vec<(String, String)>>>,
    asked: Rc<RefCell<Vec<String>>>,
    takes: bool,
}

impl HostCallbacks for Desk {
    fn send_to_frontend(&self, event: &str, payload: &str) -> bool {
        self.sent.borrow_mut().push((event.to_string(), payload.to_string()));
        self.takes
    }

    fn get_app_config(&self, key: &str) -> Option<Vec<u8>> {
        self.asked.borrow_mut().push(key.to_string());
        match key {
            "theme" => Some(b"dark".to_vec()),
            "broken" => Some(vec![0xFF, 0xFE]),
            _ => None,
        }
    }

    fn call_other_plugin(&self, plugin_id: &str, message: &str) -> Option<Vec<u8>> {
        self.asked.borrow_mut().push(format!("{}:{}", plugin_id, message));
        if plugin_id == "other" {
            Some(format!("re:{}", message).into_bytes())
        } else {
            None
        }
    }
}

struct Quiet;

impl PluginHandler for Quiet {
    type Host = Desk;
    type Context = ();
    type Ui = ();

    fn update_ui(&mut self, _ctx: &(), _ui: &mut (), _plugin_ctx: &PluginInstanceContext<Desk>) {}
}

fn metadata(instance_id: Option<&str>, require_history: bool) -> PluginMetadata {
    PluginMetadata {
        id: "echo".to_string(),
        disabled: false,
        name: "Echo".to_string(),
        description: String::new(),
        version: "1".to_string(),
        author: None,
        library_path: None,
        config_path: String::new(),
        instance_id: instance_id.map(|s| s.to_string()),
        require_history,
    }
}

struct Wired {
    ctx: PluginInstanceContext<Desk>,
    sent: Rc<RefCell<Vec<(String, String)>>>,
    asked: Rc<RefCell<Vec<String>>>,
}

fn wired(takes: bool) -> Wired {
    let sent = Rc::new(RefCell::new(Vec::new()));
    let asked = Rc::new(RefCell::new(Vec::new()));
    let mut ctx = PluginInstanceContext::new("echo-1".to_string(), metadata(Some("echo-1"), true));
    ctx.set_callbacks(Desk { sent: sent.clone(), asked: asked.clone(), takes });
    Wired { ctx, sent, asked }
}

fn message(id: &str) -> HistoryMessage {
    HistoryMessage {
        id: id.to_string(),
        message_type: "normal".to_string(),
        status: "completed".to_string(),
        content: "hi".to_string(),
        plugin_id: "echo".to_string(),
        role: "user".to_string(),
        created_at: "2024-01-01T00:00:00Z".to_string(),
    }
}

#[test]
fn placeholder_does_nothing() {
    placeholder_for_compatibility();
}

#[test]
fn new_context_has_neither_callbacks_nor_history() {
    let ctx: PluginInstanceContext<Desk> =
        PluginInstanceContext::new("echo-1".to_string(), metadata(Some("echo-1"), false));
    assert_eq!(ctx.get_instance_id(), "echo-1");
    assert_eq!(ctx.get_metadata().id, "echo");
    assert!(ctx.get_callbacks().is_none());
    assert!(ctx.get_history().is_none());
}

#[test]
fn callbacks_are_attached() {
    let w = wired(true);
    assert!(w.ctx.get_callbacks().is_some());
    assert!(w.ctx.get_callbacks().unwrap().takes);
    assert_eq!(w.ctx.get_instance_id(), "echo-1");
}

#[test]
fn history_is_stored_in_order_and_cleared() {
    let mut w = wired(true);
    w.ctx.set_history(vec![message("1"), message("2"), message("3")]);
    let ids: Vec<&str> = w.ctx.get_history().unwrap().iter().map(|m| m.id.as_str()).collect();
    assert_eq!(ids, vec!["1", "2", "3"]);
    w.ctx.clear_history();
    assert!(w.ctx.get_history().is_none());
    assert!(w.ctx.get_callbacks().is_some());
}

#[test]
fn reading_history_without_asking_for_it_warns() {
    let mut ctx: PluginInstanceContext<Desk> =
        PluginInstanceContext::new("echo-1".to_string(), metadata(Some("echo-1"), false));
    ctx.set_history(vec![message("1")]);
    assert_eq!(ctx.get_history().unwrap().len(), 1);
    assert_eq!(
        ctx.history_warning(),
        Some(
            "Plugin 'echo' does not set require_history config, but get_history was called."
                .to_string()
        )
    );
    let asked: PluginInstanceContext<Desk> =
        PluginInstanceContext::new("echo-1".to_string(), metadata(Some("echo-1"), true));
    assert_eq!(asked.history_warning(), None);
}

#[test]
fn send_to_frontend_returns_the_answer_of_the_host() {
    let w = wired(true);
    assert!(w.ctx.send_to_frontend("event", "{}"));
    assert_eq!(w.sent.borrow().as_slice(), &[("event".to_string(), "{}".to_string())]);
    let w = wired(false);
    assert!(!w.ctx.send_to_frontend("event", "{}"));
    assert_eq!(w.sent.borrow().len(), 1);
}

#[test]
fn send_to_frontend_fails_closed() {
    let ctx: PluginInstanceContext<Desk> =
        PluginInstanceContext::new("echo-1".to_string(), metadata(Some("echo-1"), false));
    assert!(!ctx.send_to_frontend("event", "{}"));
    let w = wired(true);
    assert!(!w.ctx.send_to_frontend("ev\0ent", "{}"));
    assert!(!w.ctx.send_to_frontend("event", "{\0}"));
    assert!(w.sent.borrow().is_empty());
}

#[test]
fn app_config_is_read_from_the_host() {
    let w = wired(true);
    assert_eq!(w.ctx.get_app_config("theme"), Some("dark".to_string()));
    assert_eq!(w.ctx.get_app_config("missing"), None);
    assert_eq!(w.ctx.get_app_config("broken"), None);
    assert_eq!(w.asked.borrow().len(), 3);
    assert_eq!(w.ctx.get_app_config("the\0me"), None);
    assert_eq!(w.asked.borrow().len(), 3);
    let ctx: PluginInstanceContext<Desk> =
        PluginInstanceContext::new("echo-1".to_string(), metadata(Some("echo-1"), false));
    assert_eq!(ctx.get_app_config("theme"), None);
}

#[test]
fn other_plugins_are_called_through_the_host() {
    let w = wired(true);
    assert_eq!(w.ctx.call_other_plugin("other", "ping"), Some("re:ping".to_string()));
    assert_eq!(w.ctx.call_other_plugin("nobody", "ping"), None);
    assert_eq!(w.ctx.call_other_plugin("oth\0er", "ping"), None);
    assert_eq!(w.ctx.call_other_plugin("other", "pi\0ng"), None);
    assert_eq!(w.asked.borrow().as_slice(), &["other:ping".to_string(), "nobody:ping".to_string()]);
    let ctx: PluginInstanceContext<Desk> =
        PluginInstanceContext::new("echo-1".to_string(), metadata(Some("echo-1"), false));
    assert_eq!(ctx.call_other_plugin("other", "ping"), None);
}

#[test]
fn message_payload_has_its_keys_in_order() {
    assert_eq!(
        plugin_message_payload("echo", "echo-1", "message_5", "hi \"there\"", 1700000000000),
        "{\"content\":\"hi \\\"there\\\"\",\"instance_id\":\"echo-1\",\"message_id\":\"message_5\",\"message_type\":\"plugin_message\",\"plugin_id\":\"echo\",\"timestamp\":1700000000000}"
    );
    let w = wired(true);
    assert_eq!(
        w.ctx.message_payload("message_5", "x", 0),
        "{\"content\":\"x\",\"instance_id\":\"echo-1\",\"message_id\":\"message_5\",\"message_type\":\"plugin_message\",\"plugin_id\":\"echo\",\"timestamp\":0}"
    );
}

#[test]
fn message_payload_is_what_serde_json_writes_for_the_same_object() {
    let mut object = serde_json::Map::new();
    object.insert("message_type".to_string(), serde_json::Value::from("plugin_message"));
    object.insert("plugin_id".to_string(), serde_json::Value::from("echo"));
    object.insert("instance_id".to_string(), serde_json::Value::from("echo-1"));
    object.insert("message_id".to_string(), serde_json::Value::from("message_5"));
    object.insert("content".to_string(), serde_json::Value::from("tab\there"));
    object.insert("timestamp".to_string(), serde_json::Value::from(12345u64));
    assert_eq!(
        plugin_message_payload("echo", "echo-1", "message_5", "tab\there", 12345),
        serde_json::Value::Object(object).to_string()
    );
}

#[test]
fn message_goes_out_as_plugin_message() {
    let w = wired(true);
    assert!(w.ctx.send_message_to_frontend("hello"));
    let sent = w.sent.borrow();
    assert_eq!(sent.len(), 1);
    assert_eq!(sent[0].0, "plugin-message");
    let value: serde_json::Value = serde_json::from_str(&sent[0].1).unwrap();
    assert_eq!(value.get("message_type").unwrap(), "plugin_message");
    assert_eq!(value.get("plugin_id").unwrap(), "echo");
    assert_eq!(value.get("instance_id").unwrap(), "echo-1");
    assert_eq!(value.get("content").unwrap(), "hello");
    assert!(value.get("message_id").unwrap().as_str().unwrap().starts_with("message_"));
    assert!(value.get("timestamp").unwrap().is_u64());
    assert_eq!(value.as_object().unwrap().len(), 6);
}

#[test]
fn message_without_callbacks_is_not_sent() {
    let ctx: PluginInstanceContext<Desk> =
        PluginInstanceContext::new("echo-1".to_string(), metadata(Some("echo-1"), false));
    assert!(!ctx.send_message_to_frontend("hello"));
    assert!(!ctx.refresh_ui());
    assert!(!ctx.call_disconnect());
    assert!(!ctx.send_stream_message_to_frontend(
        "stream_pause",
        plugin_bridge::StreamMessageData::Control(plugin_bridge::StreamControlData {
            stream_id: "s".to_string()
        })
    ));
}

#[test]
fn message_that_the_host_refuses_is_reported() {
    let w = wired(false);
    assert!(!w.ctx.send_message_to_frontend("hello"));
    assert!(!w.ctx.refresh_ui());
    assert!(!w.ctx.call_disconnect());
    assert_eq!(w.sent.borrow().len(), 3);
}

#[test]
fn dispatches_name_event_and_payload() {
    let w = wired(true);
    let d = w.ctx.message_dispatch("message_5", "x", 0);
    assert_eq!(d.event, "plugin-message");
    assert_eq!(d.payload, w.ctx.message_payload("message_5", "x", 0));
    let d = w.ctx.refresh_dispatch();
    assert_eq!(d.event, "plugin-ui-refreshed");
    assert_eq!(d.payload, "{\"instance\":\"echo-1\",\"plugin\":\"echo\"}");
    let d = w.ctx.disconnect_dispatch(42);
    assert_eq!(d.event, "plugin-disconnect-request");
    assert_eq!(
        d.payload,
        "{\"instance_id\":\"echo-1\",\"plugin_id\":\"echo\",\"timestamp\":42}"
    );
    assert!(w.ctx.dispatch(&d));
    assert_eq!(w.sent.borrow().as_slice(), &[(d.event.clone(), d.payload.clone())]);
    let ctx: PluginInstanceContext<Desk> =
        PluginInstanceContext::new("echo-1".to_string(), metadata(Some("echo-1"), false));
    assert!(!ctx.dispatch(&d));
}

#[test]
fn refresh_names_plugin_and_instance() {
    let w = wired(true);
    assert_eq!(w.ctx.refresh_payload(), "{\"instance\":\"echo-1\",\"plugin\":\"echo\"}");
    assert!(w.ctx.refresh_ui());
    assert_eq!(
        w.sent.borrow().as_slice(),
        &[(
            "plugin-ui-refreshed".to_string(),
            "{\"instance\":\"echo-1\",\"plugin\":\"echo\"}".to_string()
        )]
    );
}

#[test]
fn disconnect_request_carries_the_time() {
    let w = wired(true);
    assert_eq!(
        w.ctx.disconnect_payload(42),
        "{\"instance_id\":\"echo-1\",\"plugin_id\":\"echo\",\"timestamp\":42}"
    );
    assert!(w.ctx.call_disconnect());
    let sent = w.sent.borrow();
    assert_eq!(sent[0].0, "plugin-disconnect-request");
    let value: serde_json::Value = serde_json::from_str(&sent[0].1).unwrap();
    assert_eq!(value.get("plugin_id").unwrap(), "echo");
    assert_eq!(value.get("instance_id").unwrap(), "echo-1");
    assert!(value.get("timestamp").unwrap().as_u64().unwrap() > 1_600_000_000_000);
}

#[test]
fn payloads_fall_back_to_the_plugin_id() {
    let ctx: PluginInstanceContext<Desk> =
        PluginInstanceContext::new("x".to_string(), metadata(None, false));
    assert_eq!(ctx.refresh_payload(), "{\"instance\":\"echo\",\"plugin\":\"echo\"}");
    assert_eq!(
        ctx.disconnect_payload(1),
        "{\"instance_id\":\"echo\",\"plugin_id\":\"echo\",\"timestamp\":1}"
    );
}

#[test]
fn message_ids_are_made_from_the_time() {
    assert_eq!(message_id_for(0), "message_0");
    assert_eq!(message_id_for(1700000000123456789), "message_1700000000123456789");
    let id = generate_message_id();
    assert!(id.starts_with("message_"));
    let digits = &id["message_".len()..];
    assert!(!digits.is_empty() && digits.chars().all(|c| c.is_ascii_digit()));
    assert!(digits.parse::<u128>().unwrap() > 1_600_000_000_000_000_000);
    let w = wired(true);
    assert!(w.ctx.generate_message_id().starts_with("message_"));
    assert!(w.ctx.generate_stream_id().starts_with("stream_"));
}

#[test]
fn free_standing_send_never_sends() {
    assert!(!send_message_to_frontend("echo", "echo-1", "hello"));
}

#[test]
fn handlers_send_through_the_context() {
    let w = wired(true);
    assert!(PluginMessage::send_message_to_frontend(&Quiet, "hey", &w.ctx));
    assert_eq!(w.sent.borrow().len(), 1);
    assert_eq!(w.sent.borrow()[0].0, "plugin-message");
    let ctx: PluginInstanceContext<Desk> =
        PluginInstanceContext::new("echo-1".to_string(), metadata(Some("echo-1"), false));
    assert!(!PluginMessage::send_message_to_frontend(&Quiet, "hey", &ctx));
}
