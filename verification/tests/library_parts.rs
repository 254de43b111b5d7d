use arcane_bridge::launch::{hub_timeout_text, hub_wait_step, HubWait};
use arcane_bridge::activity::{hms_text, status_change_texts, ActivityLog, MAX_LINES};
use arcane_bridge::console::ConsoleState;
use arcane_bridge::hub_state::{is_invalid_symbol_placeholder, normalize_symbol, normalize_symbols, HubState};
use arcane_bridge::json::{msg_id, JsonNumber, JsonValue};
use arcane_bridge::launch::is_script_extension;
use arcane_bridge::pending::PendingRequests;
use arcane_bridge::registry::{infer_role_from_client_id, ClientRole, ConnectionRegistry};
use arcane_bridge::status::{
    bridge_host_from_setting, bridge_port_from_settings, status_to_json, BridgeAppsStatus,
    BridgeClient, BridgeStatus,
};
use arcane_bridge::text::{contains_str, i64_text, parse_u16_text, trim, u64_text};
use arcane_bridge::tray::{connected_menu_entries, title_version_line, tray_tooltip};
use arcane_bridge::zones::{
    assigned_zone_ids, check_zone_placement, clear_trader_pool, default_app_id,
    guilds_hydrate_request_id, is_transient_cause, monitor_hydrate_request_id,
    pick_guilds_hydration, pick_monitor_hydration, pick_pool_zones, pool_zone_id,
    take_exclusive_active, unassign_view_in, zone_apps, MonitorView, ZoneSession, ZoneSlot,
};

fn s(x: &str) -> JsonValue {
    JsonValue::Str(x.to_string())
}

fn obj(entries: Vec<(&str, JsonValue)>) -> JsonValue {
    JsonValue::Object(entries.into_iter().map(|(k, v)| (k.to_string(), v)).collect())
}

fn status(listening: bool, clients: Vec<(&str, &str)>) -> BridgeStatus {
    BridgeStatus {
        listening,
        host: "127.0.0.1".to_string(),
        port: 47991,
        apps: BridgeAppsStatus::default(),
        clients: clients
            .into_iter()
            .map(|(r, i)| BridgeClient { role: r.to_string(), id: i.to_string(), connected_at: Some(1) })
            .collect(),
    }
}

#[test]
fn trim_and_contains() {
    assert_eq!(trim("  \u{3000}a b\t\n"), "a b");
    assert_eq!(trim(""), "");
    assert!(contains_str("arcane-monitor-1", "monitor"));
    assert!(!contains_str("mon", "monitor"));
    assert!(contains_str("x", ""));
}

#[test]
fn decimal_text() {
    assert_eq!(u64_text(0), "0");
    assert_eq!(u64_text(47991), "47991");
    assert_eq!(u64_text(u64::MAX), u64::MAX.to_string());
    assert_eq!(i64_text(-12), "-12");
    assert_eq!(i64_text(i64::MIN), i64::MIN.to_string());
}

#[test]
fn u16_parsing_matches_std() {
    for t in ["0", "1", "+7", "65535", "65536", "", "+", "-1", "12a", " 1", "00080", "99999999999999999999"] {
        assert_eq!(parse_u16_text(t), t.parse::<u16>().ok(), "input {t:?}");
    }
}

#[test]
fn settings_choose_address() {
    assert_eq!(bridge_host_from_setting(None), "127.0.0.1");
    assert_eq!(bridge_host_from_setting(Some("   ")), "127.0.0.1");
    assert_eq!(bridge_host_from_setting(Some(" 0.0.0.0 ")), "0.0.0.0");
    assert_eq!(bridge_port_from_settings(None, None), 47991);
    assert_eq!(bridge_port_from_settings(Some("5000"), Some("6000")), 5000);
    assert_eq!(bridge_port_from_settings(None, Some("6000")), 6000);
    assert_eq!(bridge_port_from_settings(Some("0"), Some("6000")), 47991);
    assert_eq!(bridge_port_from_settings(Some("bad"), Some("6000")), 47991);
}

#[test]
fn message_ids() {
    let m = obj(vec![("id", s("abc"))]);
    assert_eq!(msg_id(&m), Some("abc".to_string()));
    let m = obj(vec![("id", JsonValue::Null)]);
    assert_eq!(msg_id(&m), Some(String::new()));
    let m = obj(vec![("id", JsonValue::Number(JsonNumber::PosInt(12)))]);
    assert_eq!(msg_id(&m), Some("12".to_string()));
    let m = obj(vec![("id", JsonValue::Bool(true))]);
    assert_eq!(msg_id(&m), Some("true".to_string()));
    assert_eq!(msg_id(&obj(vec![])), None);
    assert_eq!(msg_id(&s("x")), None);
}

#[test]
fn roles_from_client_ids() {
    assert_eq!(infer_role_from_client_id(None), ClientRole::Unknown);
    assert_eq!(infer_role_from_client_id(Some("  ")), ClientRole::Unknown);
    assert_eq!(infer_role_from_client_id(Some(" Arcane-MONITOR ")), ClientRole::Monitor);
    assert_eq!(infer_role_from_client_id(Some("caster-monitor")), ClientRole::Monitor);
    assert_eq!(infer_role_from_client_id(Some("Caster")), ClientRole::Caster);
    assert_eq!(infer_role_from_client_id(Some("guilds-app")), ClientRole::Guilds);
    assert_eq!(infer_role_from_client_id(Some("the-admin")), ClientRole::BridgeApp);
    assert_eq!(infer_role_from_client_id(Some("bridge")), ClientRole::BridgeApp);
    assert_eq!(infer_role_from_client_id(Some("other")), ClientRole::Unknown);
    assert_eq!(ClientRole::BridgeApp.as_str(), "bridge_app");
}

#[test]
fn registry_tags_and_forgets() {
    let mut r = ConnectionRegistry::new();
    r.watchlist_subscribers_mut().insert(3);
    r.tag(3, ClientRole::Guilds, "guilds-1");
    r.tag(3, ClientRole::Caster, "");
    r.set_monitor_publisher(1);
    r.tag(1, ClientRole::Monitor, "mon");
    r.admin_subscribers_mut().insert(1);
    let snap = r.connections_snapshot("h", 9);
    assert_eq!(snap.clients.len(), 2);
    assert!(snap.apps.monitor && snap.apps.caster && !snap.apps.guilds);
    assert!(snap.clients.iter().any(|c| c.role == "caster" && c.id == "guilds-1"));
    let payload = status_to_json(&snap);
    match payload {
        JsonValue::Object(es) => assert_eq!(es.len(), 5),
        _ => panic!("object expected"),
    }
    assert!(r.remove(1));
    assert!(!r.remove(3));
    assert!(r.watchlist_subscribers().is_empty());
    assert!(r.admin_subscribers().is_empty());
    assert_eq!(r.monitor_publisher(), None);
    assert!(r.connections_snapshot("h", 9).clients.is_empty());
}

#[test]
fn pending_requests_map() {
    let mut p = PendingRequests::new();
    p.insert("a".to_string(), 1);
    p.insert("b".to_string(), 2);
    p.insert("a".to_string(), 3);
    assert_eq!(p.remove("a"), Some(3));
    assert_eq!(p.remove("a"), None);
    p.insert("c".to_string(), 2);
    p.retain_other_than(2);
    assert_eq!(p.remove("b"), None);
    assert_eq!(p.remove("c"), None);
}

#[test]
fn symbols_are_normalized() {
    assert!(is_invalid_symbol_placeholder("NIL"));
    assert!(!is_invalid_symbol_placeholder("nil"));
    assert_eq!(normalize_symbol(Some(&s(" aapl "))), Some("AAPL".to_string()));
    assert_eq!(normalize_symbol(Some(&s(" none "))), None);
    assert_eq!(normalize_symbol(Some(&JsonValue::Null)), None);
    assert_eq!(normalize_symbol(Some(&JsonValue::Bool(true))), None);
    assert_eq!(normalize_symbol(None), None);
    let arr = JsonValue::Array(vec![s("b"), s("a"), s(" B"), s(""), s("undefined"), JsonValue::Null]);
    assert_eq!(normalize_symbols(Some(&arr)), vec!["B".to_string(), "A".to_string()]);
    assert!(normalize_symbols(Some(&s("x"))).is_empty());
}

#[test]
fn hub_state_merges() {
    let mut st = HubState::default();
    st.merge_watchlist_publish(&obj(vec![("activeHeroModeEnabled", s("yes"))]));
    st.merge_vault_publish(&obj(vec![("symbols", JsonValue::Array(vec![s("x")])), ("publisherUserId", s("  "))]));
    st.set_monitor_token(Some("  ".to_string()));
    assert_eq!(st.monitor_token(), None);
    st.set_monitor_token(Some(" t ".to_string()));
    assert_eq!(st.monitor_token(), Some(" t "));
    st.set_monitor_views(&obj(vec![("views", JsonValue::Array(vec![s("v")]))]));
    assert_eq!(st.monitor_views().len(), 1);
    st.set_monitor_active_pool(true);
    assert!(st.monitor_active_pool());
    match st.watchlist_payload() {
        JsonValue::Object(es) => {
            let hero = es.iter().find(|(k, _)| k == "activeHeroModeEnabled").unwrap();
            assert!(matches!(hero.1, JsonValue::Bool(false)));
            assert!(!es.iter().any(|(k, _)| k == "publisherUserId"));
        }
        _ => panic!(),
    }
    match st.vault_payload() {
        JsonValue::Object(es) => assert_eq!(es.len(), 1),
        _ => panic!(),
    }
    st.clear_monitor_publisher_state();
    assert_eq!(st.monitor_token(), None);
    assert!(st.monitor_views().is_empty());
    assert!(!st.monitor_active_pool());
}

#[test]
fn activity_log_keeps_last_lines() {
    let mut log = ActivityLog::default();
    for i in 0..(MAX_LINES + 5) {
        log.push_stamped(Some(3661), &format!("line {i}"));
    }
    assert_eq!(log.lines().len(), MAX_LINES);
    assert_eq!(log.lines()[0], "[01:01:01] line 5");
    assert_eq!(log.lines()[MAX_LINES - 1], format!("[01:01:01] line {}", MAX_LINES + 4));
    log.push("fresh");
    assert!(log.lines()[MAX_LINES - 1].ends_with("] fresh"));
    assert_eq!(hms_text(None), "--:--:--");
    assert_eq!(hms_text(Some(86399)), "23:59:59");
}

#[test]
fn status_changes_are_described() {
    let a = status(true, vec![("monitor", "m1"), ("caster", "c1")]);
    let b = status(false, vec![("caster", "c1"), ("guilds", "g1")]);
    assert_eq!(
        status_change_texts(Some(&a), &b),
        vec![
            "Hub offline — reconnecting…".to_string(),
            "Guilds connected (g1)".to_string(),
            "Monitor disconnected (m1)".to_string(),
        ]
    );
    assert_eq!(status_change_texts(None, &a), vec!["Hub online at 127.0.0.1:47991".to_string()]);
    assert_eq!(status_change_texts(None, &b), vec!["Waiting for hub…".to_string()]);
    assert!(status_change_texts(Some(&a), &a).is_empty());
    let mut log = ActivityLog::default();
    log.record_status(Some(&b), &a);
    assert_eq!(log.lines().len(), 3);
    assert!(log.lines()[0].ends_with("] Hub online at 127.0.0.1:47991"));
}

#[test]
fn console_tracks_status() {
    let mut c = ConsoleState::new("2.0.0".to_string(), status(true, vec![]));
    assert_eq!(c.activity.lines().len(), 1);
    c.apply_status(status(true, vec![("bridge_app", "admin")]));
    let snap = c.snapshot();
    assert_eq!(snap.version, "2.0.0");
    assert_eq!(snap.clients.len(), 1);
    assert_eq!(snap.activity.len(), 2);
    assert!(snap.activity[1].ends_with("] Bridge connected (admin)"));
}

#[test]
fn tray_text() {
    assert_eq!(title_version_line("Arcane Bridge", "1.0.0"), "Arcane Bridge  v1.0.0");
    let mut st = status(true, vec![]);
    assert_eq!(tray_tooltip(&st), "Arcane Bridge — hub up, waiting for apps");
    st.apps = BridgeAppsStatus { monitor: true, caster: false, guilds: true };
    assert_eq!(tray_tooltip(&st), "Arcane Bridge — Monitor, Guilds");
    assert_eq!(connected_menu_entries(st.apps), vec![("monitor", "Monitor"), ("guilds", "Guilds")]);
    st.listening = false;
    assert_eq!(tray_tooltip(&st), "Arcane Bridge — reconnecting…");
}

fn slot(id: &str, view: Option<&str>, pool: Option<&str>) -> ZoneSlot {
    ZoneSlot {
        id: id.to_string(),
        app_id: "monitor".to_string(),
        view_id: view.map(str::to_string),
        view_label: view.map(|v| format!("{v} label")),
        trader_pool: pool.map(str::to_string),
    }
}

#[test]
fn zone_assignments() {
    let mut sessions = vec![
        ZoneSession { label: "zone-overlay-0".to_string(), zones: vec![slot("a", Some("v1"), Some("active")), slot("b", None, Some("active"))] },
        ZoneSession { label: "zone-overlay-1".to_string(), zones: vec![slot("c", Some("v2"), Some("active")), slot("d", None, Some("watch"))] },
    ];
    assert_eq!(assigned_zone_ids(&sessions, false), vec!["v1", "v2", "__trader_active"]);
    assert!(take_exclusive_active(&mut sessions, "zone-overlay-1"));
    assert_eq!(sessions[0].zones[0].trader_pool, None);
    assert_eq!(sessions[0].zones[1].trader_pool, None);
    assert_eq!(sessions[1].zones[0].trader_pool.as_deref(), Some("active"));
    assert!(!take_exclusive_active(&mut sessions, "zone-overlay-0"));
    assert!(clear_trader_pool(&mut sessions, "active"));
    assert_eq!(assigned_zone_ids(&sessions, false), vec!["v1", "v2"]);
    assert_eq!(assigned_zone_ids(&sessions, true), vec!["v1", "v2", "__trader_active"]);
    assert!(!clear_trader_pool(&mut sessions, "active"));
    assert!(unassign_view_in(&mut sessions, "monitor", "v2"));
    assert_eq!(sessions[1].zones[0].view_label, None);
    assert!(!unassign_view_in(&mut sessions, "guilds", "v1"));
    assert!(is_transient_cause("moved"));
    assert!(!is_transient_cause("user"));
    assert!(check_zone_placement("sidebar").is_err());
    assert!(check_zone_placement("chat").is_ok());
    assert_eq!(default_app_id(), "monitor");
    assert!(is_script_extension(Some("mjs")));
    assert!(!is_script_extension(Some("exe")));
    assert!(!is_script_extension(None));
}

#[test]
fn zone_app_listing() {
    let apps = zone_apps(vec![MonitorView { id: "feed".to_string(), label: "Feed".to_string() }], true, true);
    assert_eq!(apps.len(), 2);
    assert_eq!(apps[0].id, "monitor");
    assert_eq!(apps[0].views.len(), 1);
    assert_eq!(apps[1].label, "Arcane Guilds");
    assert_eq!(apps[1].views[2].label, "Focus & Watchlist");
    assert!(zone_apps(vec![], false, false).is_empty());
}

fn app_slot(app: &str, view: Option<&str>, pool: Option<&str>) -> ZoneSlot {
    ZoneSlot { app_id: app.to_string(), ..slot("z", view, pool) }
}

#[test]
fn boot_hydration_picks() {
    let first = vec![
        app_slot("monitor", Some("feed"), Some("active")),
        app_slot("guilds", Some("chat"), None),
        app_slot("monitor", Some("feed"), Some("watch")),
        app_slot("monitor", None, Some("watch")),
        app_slot("guilds", Some("sidebar"), None),
    ];
    let second = vec![app_slot("monitor", Some("feed"), None), app_slot("monitor", Some("chart"), None)];
    let mut seen: Vec<String> = Vec::new();
    assert_eq!(pick_monitor_hydration(&first, &mut seen), vec![0]);
    assert_eq!(pick_monitor_hydration(&second, &mut seen), vec![1]);
    assert_eq!(seen, vec!["feed", "chart"]);
    assert_eq!(pick_guilds_hydration(&first), vec![1]);
    assert!(pick_guilds_hydration(&second).is_empty());
    assert_eq!(pick_pool_zones(&first, "active"), vec![0]);
    assert_eq!(pick_pool_zones(&first, "watch"), vec![2, 3]);
    assert_eq!(pool_zone_id("Display|0:0|1920x1080|2", "z1"), "Display|0:0|1920x1080|2:z1");
    assert_eq!(guilds_hydrate_request_id("chat", 3), "guilds-zone-hydrate-chat-3");
    assert_eq!(monitor_hydrate_request_id(1700000000123), "zone-hydrate-1700000000123");
}

#[test]
fn log_is_a_rolling_window_of_every_call() {
    let mut log = ActivityLog::default();
    let mut all: Vec<String> = Vec::new();
    let a = status(true, vec![("monitor", "m1")]);
    let b = status(false, vec![("caster", "c1")]);
    for i in 0..60 {
        log.push_stamped(Some(0), &format!("p{i}"));
        all.push(format!("p{i}"));
        let (prev, next) = if i % 2 == 0 { (&a, &b) } else { (&b, &a) };
        all.extend(status_change_texts(Some(prev), next));
        log.record_status(Some(prev), next);
    }
    let lines = log.lines();
    assert_eq!(lines.len(), MAX_LINES);
    let tail = &all[all.len() - MAX_LINES..];
    for (line, expected) in lines.iter().zip(tail) {
        assert_eq!(line.split_once("] ").map(|(_, t)| t), Some(expected.as_str()));
    }
    assert!(lines[MAX_LINES - 1].ends_with("] Caster disconnected (c1)"));
}

#[test]
fn same_status_twice_logs_nothing() {
    let s = status(true, vec![("monitor", "m1"), ("guilds", "g1")]);
    let mut c = ConsoleState::new("2.0.0".to_string(), s.clone());
    let before = c.snapshot().activity;
    c.apply_status(s.clone());
    c.apply_status(s);
    assert_eq!(c.snapshot().activity, before);
}

#[test]
fn waiting_for_a_spawned_hub() {
    assert_eq!(hub_wait_step(true, true, true), HubWait::Ready);
    assert_eq!(hub_wait_step(true, false, true), HubWait::Exited);
    assert_eq!(hub_wait_step(true, false, false), HubWait::Retry);
    assert_eq!(hub_wait_step(false, true, false), HubWait::TimedOut);
    assert_eq!(hub_timeout_text("127.0.0.1", 47991, 12), "hub did not listen on 127.0.0.1:47991 within 12s");
}
