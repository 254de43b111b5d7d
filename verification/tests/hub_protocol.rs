use arcane_bridge::handlers::{
    frame_line, handle_client_line, handle_line, handle_message, handle_monitor_publisher_line,
    is_forward_to_monitor, is_monitor_publish_type, raw_line_text, wire_text,
};
use arcane_bridge::json::{json_line, parse_json_line, JsonNumber, JsonValue};
use arcane_bridge::protocol::{HubAction, HubContext};
use arcane_bridge::registry::ClientRole;

fn from_json(v: &JsonValue) -> serde_json::Value {
    match v {
        JsonValue::Null => serde_json::Value::Null,
        JsonValue::Bool(b) => serde_json::Value::Bool(*b),
        JsonValue::Number(JsonNumber::PosInt(u)) => serde_json::Value::from(*u),
        JsonValue::Number(JsonNumber::NegInt(i)) => serde_json::Value::from(*i),
        JsonValue::Number(JsonNumber::Float(t)) => serde_json::from_str(t).unwrap(),
        JsonValue::Str(s) => serde_json::Value::String(s.clone()),
        JsonValue::Array(a) => serde_json::Value::Array(a.iter().map(from_json).collect()),
        JsonValue::Object(es) => {
            let mut m = serde_json::Map::new();
            for (k, v) in es {
                m.insert(k.clone(), from_json(v));
            }
            serde_json::Value::Object(m)
        }
    }
}

fn parse(line: &str) -> JsonValue {
    parse_json_line(line).expect("JSON text")
}

fn hub() -> HubContext {
    HubContext::new("127.0.0.1".to_string(), 47991, "1.2.3".to_string())
}

fn sends(out: &[HubAction]) -> Vec<(u64, serde_json::Value)> {
    out.iter()
        .filter_map(|a| match a {
            HubAction::Send { conn, message } => Some((*conn, from_json(message))),
            _ => None,
        })
        .collect()
}

fn send_line(ctx: &mut HubContext, conn: u64, line: &str) -> Vec<HubAction> {
    handle_line(ctx, conn, line)
}

#[test]
fn hello_is_acknowledged_with_version() {
    let mut ctx = hub();
    let out = send_line(&mut ctx, 1, r#"{"schema":1,"type":"hello","id":"h1"}"#);
    let s = sends(&out);
    assert_eq!(s.len(), 1);
    assert_eq!(s[0].0, 1);
    assert_eq!(s[0].1["type"], "hello.ack");
    assert_eq!(s[0].1["id"], "h1");
    assert_eq!(s[0].1["payload"]["app"], "arcane-bridge");
    assert_eq!(s[0].1["payload"]["protocol"], 1);
    assert_eq!(s[0].1["payload"]["version"], "1.2.3");
}

#[test]
fn non_object_envelope_is_refused() {
    let mut ctx = hub();
    let msg = parse("[1,2]");
    let out = handle_message(&mut ctx, 3, &msg);
    let s = sends(&out);
    assert_eq!(s.len(), 1);
    assert_eq!(s[0].1["type"], "error");
    assert!(s[0].1["id"].is_null());
    assert_eq!(s[0].1["payload"]["code"], "invalid_envelope");
    assert_eq!(s[0].1["payload"]["message"], "Expected JSON object");
}

#[test]
fn other_schema_is_refused() {
    let mut ctx = hub();
    let out = send_line(&mut ctx, 3, r#"{"schema":2,"type":"hello","id":7}"#);
    let s = sends(&out);
    assert_eq!(s[0].1["payload"]["code"], "unsupported_schema");
    assert_eq!(s[0].1["id"], "7");
    let out = send_line(&mut ctx, 3, r#"{"schema":1.0,"type":"hello"}"#);
    assert_eq!(sends(&out)[0].1["payload"]["code"], "unsupported_schema");
}

#[test]
fn unknown_type_is_named_in_error() {
    let mut ctx = hub();
    let out = send_line(&mut ctx, 3, r#"{"schema":1,"type":"bogus","id":""}"#);
    let s = sends(&out);
    assert_eq!(s[0].1["payload"]["code"], "unknown_type");
    assert_eq!(s[0].1["payload"]["message"], "Unknown type: bogus");
    assert!(s[0].1["id"].is_null());
}

#[test]
fn blank_lines_are_skipped() {
    assert_eq!(frame_line("   \t "), None);
    assert_eq!(frame_line("  {\"a\":1} \n"), Some("{\"a\":1}".to_string()));
    assert_eq!(raw_line_text("abc"), "abc\n");
    assert_eq!(raw_line_text("abc\n"), "abc\n");
}

#[test]
fn message_type_sets_are_disjoint() {
    for t in ["watchlist.add", "watchlist.remove", "activeHero.toggle", "activeHero.setEnabled"] {
        assert!(is_forward_to_monitor(t));
        assert!(!is_monitor_publish_type(t));
    }
    for t in ["monitor.register", "session.publish", "watchlist.publish", "vault.publish"] {
        assert!(is_monitor_publish_type(t));
        assert!(!is_forward_to_monitor(t));
    }
    assert!(!is_forward_to_monitor("hello"));
}

#[test]
fn monitor_register_makes_publisher_and_notifies_admins() {
    let mut ctx = hub();
    let out = send_line(&mut ctx, 9, r#"{"schema":1,"type":"admin.subscribe","id":"bridge-admin"}"#);
    assert!(out.iter().any(|a| matches!(a, HubAction::Status(_))));
    let out = send_line(&mut ctx, 4, r#"{"schema":1,"type":"monitor.register","id":"monitor-main"}"#);
    assert_eq!(ctx.registry.monitor_publisher(), Some(4));
    assert_eq!(out.len(), 3);
    match &out[0] {
        HubAction::Broadcast { conns, message } => {
            assert_eq!(conns, &vec![9]);
            let m = from_json(message);
            assert_eq!(m["type"], "admin.update");
            assert_eq!(m["payload"]["apps"]["monitor"], true);
            assert_eq!(m["payload"]["version"], "1.2.3");
        }
        _ => panic!("expected admin broadcast"),
    }
    match &out[1] {
        HubAction::Status(s) => {
            assert!(s.apps.monitor);
            assert!(s.listening);
            assert_eq!(s.port, 47991);
            assert!(s.clients.iter().any(|c| c.role == "monitor" && c.id == "monitor-main"));
        }
        _ => panic!("expected status"),
    }
    let s = sends(&out);
    assert_eq!(s[0].1["type"], "monitor.register.ack");
    assert_eq!(s[0].1["payload"]["ok"], true);
}

#[test]
fn forwarded_request_reply_goes_back_to_requester() {
    let mut ctx = hub();
    send_line(&mut ctx, 1, r#"{"schema":1,"type":"monitor.register","id":"monitor"}"#);
    let request = r#"{"schema":1,"type":"watchlist.add","id":"req-1","payload":{"symbol":"AAPL"}}"#;
    let out = send_line(&mut ctx, 2, request);
    assert_eq!(out.len(), 1);
    match &out[0] {
        HubAction::SendLine { conn, line } => {
            assert_eq!(*conn, 1);
            assert_eq!(line, &format!("{request}\n"));
        }
        _ => panic!("expected forward"),
    }
    let reply = r#"{"schema":1,"type":"watchlist.add.ack","id":"req-1","payload":{"ok":true}}"#;
    let out = send_line(&mut ctx, 1, reply);
    match &out[0] {
        HubAction::SendLine { conn, line } => {
            assert_eq!(*conn, 2);
            assert_eq!(line, &format!("{reply}\n"));
        }
        _ => panic!("expected reply routing"),
    }
    // a second reply with that id is no longer routed
    let out = send_line(&mut ctx, 1, reply);
    assert!(out.is_empty());
}

#[test]
fn forward_without_monitor_is_refused() {
    let mut ctx = hub();
    let out = send_line(&mut ctx, 2, r#"{"schema":1,"type":"activeHero.toggle","id":5}"#);
    let s = sends(&out);
    assert_eq!(s[0].1["payload"]["code"], "monitor_unavailable");
    assert_eq!(s[0].1["payload"]["message"], "Arcane Monitor is not connected");
    assert_eq!(s[0].1["id"], "5");
}

#[test]
fn watchlist_publish_reaches_subscribers() {
    let mut ctx = hub();
    send_line(&mut ctx, 1, r#"{"schema":1,"type":"monitor.register"}"#);
    let out = send_line(&mut ctx, 7, r#"{"schema":1,"type":"watchlist.subscribe","id":"caster-ui"}"#);
    let snap = sends(&out);
    assert_eq!(snap[0].1["type"], "watchlist.snapshot");
    assert_eq!(snap[0].1["payload"]["activeHeroModeEnabled"], true);
    let out = send_line(
        &mut ctx,
        1,
        r#"{"schema":1,"type":"watchlist.publish","id":"p","payload":{"symbols":[" aapl","AAPL","null","msft",3,null],"activeTicker":"  tsla ","publisherUserId":"  u1 "}}"#,
    );
    match &out[0] {
        HubAction::Broadcast { conns, message } => {
            assert_eq!(conns, &vec![7]);
            let m = from_json(message);
            assert_eq!(m["type"], "watchlist.update");
            assert!(m["id"].is_null());
            assert_eq!(m["payload"]["symbols"], serde_json::from_str::<serde_json::Value>(r#"["AAPL","MSFT"]"#).unwrap());
            assert_eq!(m["payload"]["activeTicker"], "TSLA");
            assert_eq!(m["payload"]["publisherUserId"], "u1");
        }
        _ => panic!("expected broadcast"),
    }
    assert_eq!(sends(&out)[0].1["type"], "watchlist.publish.ack");
    let reg = ctx.registry.connections_snapshot("h", 1);
    assert!(reg.clients.iter().any(|c| c.id == "caster-ui" && c.role == "caster"));
}

#[test]
fn caster_account_read_back() {
    let mut ctx = hub();
    let out = send_line(&mut ctx, 3, r#"{"schema":1,"type":"casterAccount.request","id":"a"}"#);
    assert_eq!(sends(&out)[0].1["payload"], serde_json::from_str::<serde_json::Value>("{}").unwrap());
    send_line(&mut ctx, 2, r#"{"schema":1,"type":"casterAccount.publish","payload":{"equity":5}}"#);
    let out = send_line(&mut ctx, 3, r#"{"schema":1,"type":"casterAccount.request","id":"a"}"#);
    assert_eq!(sends(&out)[0].1["type"], "casterAccount.response");
    assert_eq!(sends(&out)[0].1["payload"]["equity"], 5);
    // a non-object publication changes nothing
    send_line(&mut ctx, 2, r#"{"schema":1,"type":"casterAccount.publish","payload":[1]}"#);
    let out = send_line(&mut ctx, 3, r#"{"schema":1,"type":"casterAccount.request"}"#);
    assert_eq!(sends(&out)[0].1["payload"]["equity"], 5);
}

#[test]
fn session_token_round_trip() {
    let mut ctx = hub();
    let out = send_line(&mut ctx, 3, r#"{"schema":1,"type":"session.request","id":"s"}"#);
    assert_eq!(sends(&out)[0].1["payload"]["ok"], false);
    assert_eq!(sends(&out)[0].1["payload"]["reason"], "not_logged_in");
    let out = send_line(&mut ctx, 1, r#"{"schema":1,"type":"session.publish","payload":{"token":"  tok  "}}"#);
    assert!(out.is_empty());
    let out = send_line(&mut ctx, 3, r#"{"schema":1,"type":"session.request","id":"s"}"#);
    assert_eq!(sends(&out)[0].1["payload"]["token"], "tok");
    send_line(&mut ctx, 1, r#"{"schema":1,"type":"session.publish","payload":{"token":"   "}}"#);
    let out = send_line(&mut ctx, 3, r#"{"schema":1,"type":"session.request"}"#);
    assert_eq!(sends(&out)[0].1["payload"]["ok"], false);
}

#[test]
fn feed_focus_is_upper_cased() {
    let mut ctx = hub();
    let out = send_line(&mut ctx, 3, r#"{"schema":1,"type":"feedFocus.publish","payload":{"symbol":" nvda "}}"#);
    assert_eq!(sends(&out)[0].1["payload"]["symbol"], "NVDA");
    let msg = ctx.state.watchlist_payload();
    assert_eq!(from_json(&msg)["feedFocusSymbol"], "NVDA");
    let out = send_line(&mut ctx, 3, r#"{"schema":1,"type":"feedFocus.publish","payload":{}}"#);
    assert!(sends(&out)[0].1["payload"]["symbol"].is_null());
}

#[test]
fn caster_ticket_notifications_are_relayed() {
    let mut ctx = hub();
    send_line(&mut ctx, 5, r#"{"schema":1,"type":"casterTicket.subscribe"}"#);
    send_line(&mut ctx, 6, r#"{"schema":1,"type":"casterBlowup.subscribe"}"#);
    let out = send_line(&mut ctx, 2, r#"{"schema":1,"type":"casterTicket.notify","payload":{"fill":1}}"#);
    assert!(matches!(&out[0], HubAction::Broadcast { conns, .. } if conns == &vec![5]));
    let out = send_line(&mut ctx, 2, r#"{"schema":1,"type":"casterBlowup.notify","payload":"x"}"#);
    assert_eq!(out.len(), 1);
    assert_eq!(sends(&out)[0].1["type"], "casterBlowup.ack");
}

#[test]
fn publisher_disconnect_clears_state() {
    let mut ctx = hub();
    send_line(&mut ctx, 1, r#"{"schema":1,"type":"monitor.register"}"#);
    send_line(&mut ctx, 2, r#"{"schema":1,"type":"vault.subscribe"}"#);
    send_line(&mut ctx, 1, r#"{"schema":1,"type":"vault.publish","payload":{"symbols":["x"]}}"#);
    send_line(&mut ctx, 3, r#"{"schema":1,"type":"watchlist.remove","id":"r9"}"#);
    let out = ctx.remove_conn(1);
    assert_eq!(ctx.registry.monitor_publisher(), None);
    let v = from_json(&ctx.state.vault_payload());
    assert_eq!(v["symbols"], serde_json::from_str::<serde_json::Value>("[]").unwrap());
    assert!(out.iter().any(|a| matches!(a, HubAction::Status(_))));
    match &out[0] {
        HubAction::Broadcast { conns, message } => {
            assert_eq!(conns, &vec![2]);
            assert_eq!(from_json(message)["type"], "vault.update");
        }
        _ => panic!("expected vault update"),
    }
}

#[test]
fn client_disconnect_updates_admins() {
    let mut ctx = hub();
    send_line(&mut ctx, 9, r#"{"schema":1,"type":"admin.subscribe"}"#);
    send_line(&mut ctx, 2, r#"{"schema":1,"type":"watchlist.subscribe","id":"guilds-1"}"#);
    let out = ctx.remove_conn(2);
    assert_eq!(out.len(), 2);
    match &out[1] {
        HubAction::Status(s) => assert!(!s.apps.guilds),
        _ => panic!("expected status"),
    }
}

#[test]
fn publisher_lines_other_than_publications_are_dropped() {
    let mut ctx = hub();
    send_line(&mut ctx, 1, r#"{"schema":1,"type":"monitor.register"}"#);
    let out = send_line(&mut ctx, 1, r#"{"schema":1,"type":"hello"}"#);
    assert!(out.is_empty());
    let out = handle_client_line(&mut ctx, 1, r#"{"schema":1,"type":"hello"}"#);
    assert_eq!(out.len(), 1);
    let out = handle_monitor_publisher_line(&mut ctx, 1, r#"{"schema":1,"type":"vault.publish"}"#);
    assert_eq!(sends(&out)[0].1["type"], "vault.publish.ack");
}

#[test]
fn watchlist_response_from_monitor_updates_watchlist() {
    let mut ctx = hub();
    send_line(&mut ctx, 1, r#"{"schema":1,"type":"monitor.register"}"#);
    send_line(&mut ctx, 5, r#"{"schema":1,"type":"watchlist.subscribe"}"#);
    send_line(&mut ctx, 2, r#"{"schema":1,"type":"watchlist.add","id":42}"#);
    let out = send_line(&mut ctx, 1, r#"{"schema":1,"type":"watchlist.response","id":42,"payload":{"symbols":["spy"]}}"#);
    assert!(matches!(&out[0], HubAction::SendLine { conn: 2, .. }));
    match &out[1] {
        HubAction::Broadcast { conns, message } => {
            assert_eq!(conns, &vec![5]);
            assert_eq!(from_json(message)["payload"]["symbols"][0], "SPY");
        }
        _ => panic!("expected watchlist update"),
    }
}

#[test]
fn compound_ids_are_rendered_as_json() {
    let mut ctx = hub();
    let line = r#"{"schema":1,"type":"hello","id":{"b":[1,true]}}"#;
    let out = send_line(&mut ctx, 1, line);
    assert_eq!(sends(&out)[0].1["id"], r#"{"b":[1,true]}"#);
    let out = send_line(&mut ctx, 1, r#"{"schema":1,"type":"hello","id":-3}"#);
    assert_eq!(sends(&out)[0].1["id"], "-3");
    let out = send_line(&mut ctx, 1, r#"{"schema":1,"type":"hello","id":2.5}"#);
    assert_eq!(sends(&out)[0].1["id"], "2.5");
    let _ = ClientRole::Unknown;
}

#[test]
fn watchlist_read_back() {
    let mut ctx = hub();
    let out = send_line(&mut ctx, 3, r#"{"schema":1,"type":"watchlist.request","id":"w"}"#);
    let first = &sends(&out)[0].1;
    assert_eq!(first["type"], "watchlist.response");
    assert_eq!(first["payload"]["symbols"].as_array().map(|a| a.len()), Some(0));
    assert_eq!(first["payload"]["activeHeroModeEnabled"], true);
    send_line(
        &mut ctx,
        1,
        r#"{"schema":1,"type":"watchlist.publish","payload":{"symbols":[" aapl","MSFT","aapl","nil",7],"activeTicker":"tsla","activeHeroModeEnabled":false}}"#,
    );
    let out = send_line(&mut ctx, 3, r#"{"schema":1,"type":"watchlist.request","id":"w"}"#);
    let reply = &sends(&out)[0].1;
    assert_eq!(reply["id"], "w");
    assert_eq!(reply["payload"]["symbols"][0], "AAPL");
    assert_eq!(reply["payload"]["symbols"][1], "MSFT");
    assert_eq!(reply["payload"]["symbols"].as_array().map(|a| a.len()), Some(2));
    assert_eq!(reply["payload"]["activeTicker"], "TSLA");
    assert_eq!(reply["payload"]["activeHeroModeEnabled"], false);
}

#[test]
fn vault_read_back() {
    let mut ctx = hub();
    send_line(
        &mut ctx,
        1,
        r#"{"schema":1,"type":"vault.publish","payload":{"symbols":["amd","AMD","nvda"],"publisherUserId":"  u1 "}}"#,
    );
    let out = send_line(&mut ctx, 4, r#"{"schema":1,"type":"vault.request","id":"v"}"#);
    let reply = &sends(&out)[0].1;
    assert_eq!(reply["type"], "vault.response");
    assert_eq!(reply["payload"]["symbols"][0], "AMD");
    assert_eq!(reply["payload"]["symbols"][1], "NVDA");
    assert_eq!(reply["payload"]["symbols"].as_array().map(|a| a.len()), Some(2));
    assert_eq!(reply["payload"]["publisherUserId"], "u1");
    // a publication without symbols keeps them
    send_line(&mut ctx, 1, r#"{"schema":1,"type":"vault.publish","payload":{}}"#);
    let out = send_line(&mut ctx, 4, r#"{"schema":1,"type":"vault.request"}"#);
    assert_eq!(sends(&out)[0].1["payload"]["symbols"][1], "NVDA");
}

#[test]
fn unreadable_lines_are_dropped() {
    let mut ctx = hub();
    send_line(&mut ctx, 1, r#"{"schema":1,"type":"monitor.register"}"#);
    assert!(handle_line(&mut ctx, 2, "not json at all").is_empty());
    assert!(handle_line(&mut ctx, 2, "   \n").is_empty());
    assert!(handle_line(&mut ctx, 1, "{broken").is_empty());
    // Monitor is still the publisher: its publications are still handled.
    let out = handle_line(&mut ctx, 1, r#"{"schema":1,"type":"vault.publish"}"#);
    assert_eq!(sends(&out)[0].1["type"], "vault.publish.ack");
}

#[test]
fn forwarded_line_is_the_framed_text() {
    let mut ctx = hub();
    send_line(&mut ctx, 1, r#"{"schema":1,"type":"monitor.register"}"#);
    let out = handle_line(&mut ctx, 2, "  {\"schema\":1,\"type\":\"watchlist.add\",\"id\":\"q\"}  \r\n");
    assert_eq!(out.len(), 1);
    match &out[0] {
        HubAction::SendLine { conn, line } => {
            assert_eq!(*conn, 1);
            assert_eq!(line, "{\"schema\":1,\"type\":\"watchlist.add\",\"id\":\"q\"}\n");
        }
        _ => panic!("expected a forwarded line"),
    }
    assert_eq!(wire_text(&out[0]), "{\"schema\":1,\"type\":\"watchlist.add\",\"id\":\"q\"}\n");
}

#[test]
fn messages_are_written_as_json_lines() {
    let v = parse(r#"{"b":[1,-2,2.5,"x",null,true],"a":{}}"#);
    assert_eq!(json_line(&v), "{\"a\":{},\"b\":[1,-2,2.5,\"x\",null,true]}\n");
    let out = handle_line(&mut hub(), 4, r#"{"schema":1,"type":"hello","id":"h"}"#);
    let text = wire_text(&out[0]);
    assert!(text.ends_with('\n'));
    let back: serde_json::Value = serde_json::from_str(text.trim_end()).unwrap();
    assert_eq!(back["type"], "hello.ack");
}

#[test]
fn line_feeds_inside_strings_stay_on_one_line() {
    let v = JsonValue::Str("two\nlines".to_string());
    let line = json_line(&v);
    assert_eq!(line, "\"two\\nlines\"\n");
    assert_eq!(line.matches('\n').count(), 1);
}
