//! The hub's line protocol for Monitor, Guilds and Caster clients: what the
//! hub does with each message, as state changes and the lines it sends.
use std::collections::HashSet;
use vstd::prelude::*;
use crate::hub_state::{
    HubState, HubStateView, WatchlistView, opt_json, watchlist_json, vault_json, fresh_state,
    merged_watchlist, merged_vault, merged_object, kept_token,
};
use crate::json::{
    JsonValue, JsonView, envelope, make_envelope, jopt_str, jstr, json_str, json_opt_str, jget,
    jget_str, jis_object, jas_i64, jnat, json_nat, entries_view, group_json_view, msg_id_of,
    msg_id, json_text, parsed_json,
};
use crate::pending::PendingRequests;
use crate::registry::{ConnId, ConnectionRegistry, RegistryView, ClientRole, is_snapshot, empty_registry, tagged, infer_role, without_conn};
use crate::status::{BridgeStatus, StatusView, status_json, status_to_json};
use crate::text::{owned, str_eq, trimmed, upper_case};

verus! {

broadcast use vstd::std_specs::hash::group_hash_axioms;

/// Something the hub does on the wire, or tells the tray.
pub enum HubAction {
    /// Write `message` as one JSON line to `conn`.
    Send { conn: ConnId, message: JsonValue },
    /// Write `line` (already ending in a newline) to `conn` as it is.
    SendLine { conn: ConnId, line: String },
    /// Write `message` as one JSON line to each of `conns`.
    Broadcast { conns: Vec<ConnId>, message: JsonValue },
    /// Tell the tray the hub's status.
    Status(BridgeStatus),
}

pub enum ActionView {
    Send { conn: ConnId, message: JsonView },
    SendLine { conn: ConnId, line: Seq<char> },
    Broadcast { conns: Set<ConnId>, message: JsonView },
    Status(StatusView),
}

pub open spec fn action_view(a: HubAction) -> ActionView {
    match a {
        HubAction::Send { conn, message } => ActionView::Send { conn, message: message@ },
        HubAction::SendLine { conn, line } => ActionView::SendLine { conn, line: line@ },
        HubAction::Broadcast { conns, message } => ActionView::Broadcast {
            conns: conns@.to_set(),
            message: message@,
        },
        HubAction::Status(s) => ActionView::Status(s@),
    }
}

pub open spec fn actions_view(v: Seq<HubAction>) -> Seq<ActionView> {
    v.map_values(|a: HubAction| action_view(a))
}

/// Every broadcast names each connection once.
pub open spec fn targets_distinct(v: Seq<HubAction>) -> bool {
    forall|i: int| 0 <= i < v.len() ==> match #[trigger] v[i] {
        HubAction::Broadcast { conns, message } => conns@.no_duplicates(),
        _ => true,
    }
}

/// The hub's shared context: its address and version, the published state,
/// the connection registry and the requests waiting for Monitor.
pub struct HubContext {
    pub host: String,
    pub port: u16,
    pub version: String,
    pub state: HubState,
    pub registry: ConnectionRegistry,
    pub pending_by_request_id: PendingRequests,
}

pub struct ContextView {
    pub host: Seq<char>,
    pub port: u16,
    pub version: Seq<char>,
    pub state: HubStateView,
    pub registry: RegistryView,
    pub pending: Map<Seq<char>, ConnId>,
}

impl View for HubContext {
    type V = ContextView;

    open spec fn view(&self) -> ContextView {
        ContextView {
            host: self.host@,
            port: self.port,
            version: self.version@,
            state: self.state@,
            registry: self.registry@,
            pending: self.pending_by_request_id@,
        }
    }
}

/// A topic update to its subscribers; nothing when there are none.
pub open spec fn topic_update(subs: Set<ConnId>, t: Seq<char>, payload: JsonView) -> Seq<ActionView> {
    if subs.is_empty() {
        Seq::empty()
    } else {
        seq![ActionView::Broadcast { conns: subs, message: envelope(t, JsonView::Null, payload) }]
    }
}

pub open spec fn watchlist_update(c: ContextView) -> Seq<ActionView> {
    topic_update(c.registry.watchlist, "watchlist.update"@, watchlist_json(c.state.watchlist))
}

pub open spec fn vault_update(c: ContextView) -> Seq<ActionView> {
    topic_update(c.registry.vault, "vault.update"@, vault_json(c.state.vault))
}

pub open spec fn caster_account_update(c: ContextView) -> Seq<ActionView> {
    match c.state.caster_account {
        Some(p) => topic_update(c.registry.caster_account, "casterAccount.update"@, p),
        None => Seq::empty(),
    }
}

pub open spec fn caster_journal_update(c: ContextView) -> Seq<ActionView> {
    match c.state.caster_journal {
        Some(p) => topic_update(c.registry.caster_journal, "casterJournal.update"@, p),
        None => Seq::empty(),
    }
}

/// A notification relayed to subscribers; only objects are relayed.
pub open spec fn notify_update(subs: Set<ConnId>, t: Seq<char>, event: JsonView) -> Seq<ActionView> {
    if jis_object(event) {
        topic_update(subs, t, event)
    } else {
        Seq::empty()
    }
}

/// The admin payload: the status listing plus the hub's version.
pub open spec fn admin_json(s: StatusView, version: Seq<char>) -> JsonView {
    match status_json(s) {
        JsonView::Object(es) => JsonView::Object(es.push(("version"@, jstr(version)))),
        other => other,
    }
}

/// `out` is what `broadcast_admin_status` does: the admin update to the admin
/// subscribers, then the status to the tray, for some listing order.
pub open spec fn admin_status_out(c: ContextView, out: Seq<ActionView>) -> bool {
    exists|s: StatusView|
        #[trigger] is_snapshot(c.registry, c.host, c.port, s) && out == seq![
            ActionView::Broadcast {
                conns: c.registry.admin,
                message: envelope("admin.update"@, JsonView::Null, admin_json(s, c.version)),
            },
            ActionView::Status(s),
        ]
}

/// The context once the Monitor publisher has gone: no publisher and nothing
/// of what it published.
pub open spec fn after_publisher_left(c: ContextView) -> ContextView {
    ContextView {
        registry: RegistryView { publisher: None, ..c.registry },
        state: fresh_state(),
        ..c
    }
}

/// `out` is what `on_monitor_publisher_disconnect` sends from `c2`.
pub open spec fn publisher_left_out(c2: ContextView, out: Seq<ActionView>) -> bool {
    let n = (watchlist_update(c2).len() + vault_update(c2).len()) as int;
    &&& out.len() == n + 2
    &&& out.take(n) == watchlist_update(c2) + vault_update(c2)
    &&& admin_status_out(c2, out.skip(n))
}

/// The ids of a set of connections, each once.
pub fn subscriber_ids(set: &HashSet<ConnId>) -> (r: Vec<ConnId>)
    ensures
        r@.to_set() == set@,
        r@.no_duplicates(),
{
    let mut out: Vec<ConnId> = Vec::new();
    for id in it: set.iter()
        invariant
            out@ == it.seq().unref().take(it.index() as int),
            it.seq().unref().to_set() =~= set@,
            it.seq().unref().no_duplicates(),
        ensures
            out@ == it.seq().unref(),
            it.seq().unref().to_set() =~= set@,
            it.seq().unref().no_duplicates(),
    {
        proof {
            assert(it.seq().unref()[it.index() as int] == *id);
            assert(it.seq().unref().take(it.index() + 1) =~= out@.push(*id));
        }
        out.push(*id);
    }
    out
}

proof fn lemma_empty_ids(v: Seq<ConnId>, s: Set<ConnId>)
    requires
        v.to_set() == s,
    ensures
        (v.len() == 0) == s.is_empty(),
{
    if v.len() > 0 {
        assert(s.contains(v[0]));
    } else {
        assert(s =~= Set::empty());
    }
}

impl HubContext {
    pub fn new(host: String, port: u16, version: String) -> (r: Self)
        ensures
            r@ == (ContextView {
                host: host@,
                port,
                version: version@,
                state: fresh_state(),
                registry: empty_registry(),
                pending: Map::empty(),
            }),
    {
        HubContext {
            host,
            port,
            version,
            state: HubState::default(),
            registry: ConnectionRegistry::new(),
            pending_by_request_id: PendingRequests::new(),
        }
    }

    /// The status to show before any client connects.
    pub fn initial_status(&self) -> (s: BridgeStatus)
        ensures
            is_snapshot(self@.registry, self@.host, self@.port, s@),
    {
        self.registry.connections_snapshot(self.host.as_str(), self.port)
    }

    fn topic(&self, subs: Vec<ConnId>, t: &str, payload: JsonValue, out: &mut Vec<HubAction>)
        requires
            subs@.no_duplicates(),
        ensures
            actions_view(final(out)@) == actions_view(old(out)@) + topic_update(subs@.to_set(), t@, payload@),
            targets_distinct(old(out)@) ==> targets_distinct(final(out)@),
    {
        proof {
            lemma_empty_ids(subs@, subs@.to_set());
        }
        if subs.len() == 0 {
            assert(actions_view(final(out)@) =~= actions_view(old(out)@) + topic_update(subs@.to_set(), t@, payload@));
            return;
        }
        let message = make_envelope(t, JsonValue::Null, payload);
        out.push(HubAction::Broadcast { conns: subs, message });
        assert(actions_view(final(out)@) =~= actions_view(old(out)@) + topic_update(subs@.to_set(), t@, payload@));
    }

    /// Sends the watchlist to its subscribers.
    pub fn broadcast_watchlist(&self, out: &mut Vec<HubAction>)
        ensures
            actions_view(final(out)@) == actions_view(old(out)@) + watchlist_update(self@),
            targets_distinct(old(out)@) ==> targets_distinct(final(out)@),
    {
        let subs = subscriber_ids(self.registry.watchlist_subscribers());
        if subs.len() == 0 {
            proof {
                lemma_empty_ids(subs@, self@.registry.watchlist);
            }
            assert(actions_view(final(out)@) =~= actions_view(old(out)@) + watchlist_update(self@));
            return;
        }
        let payload = self.state.watchlist_payload();
        self.topic(subs, "watchlist.update", payload, out);
    }

    /// Sends the vault to its subscribers.
    pub fn broadcast_vault(&self, out: &mut Vec<HubAction>)
        ensures
            actions_view(final(out)@) == actions_view(old(out)@) + vault_update(self@),
            targets_distinct(old(out)@) ==> targets_distinct(final(out)@),
    {
        let subs = subscriber_ids(self.registry.vault_subscribers());
        if subs.len() == 0 {
            proof {
                lemma_empty_ids(subs@, self@.registry.vault);
            }
            assert(actions_view(final(out)@) =~= actions_view(old(out)@) + vault_update(self@));
            return;
        }
        let payload = self.state.vault_payload();
        self.topic(subs, "vault.update", payload, out);
    }

    /// Sends the Caster account to its subscribers, when there is one.
    pub fn broadcast_caster_account(&self, out: &mut Vec<HubAction>)
        ensures
            actions_view(final(out)@) == actions_view(old(out)@) + caster_account_update(self@),
            targets_distinct(old(out)@) ==> targets_distinct(final(out)@),
    {
        let subs = subscriber_ids(self.registry.caster_account_subscribers());
        proof {
            lemma_empty_ids(subs@, self@.registry.caster_account);
        }
        if subs.len() == 0 {
            assert(actions_view(final(out)@) =~= actions_view(old(out)@) + caster_account_update(self@));
            return;
        }
        match self.state.caster_account_payload() {
            Some(payload) => self.topic(subs, "casterAccount.update", payload, out),
            None => {
                assert(actions_view(final(out)@) =~= actions_view(old(out)@) + caster_account_update(self@));
            },
        }
    }

    /// Sends the Caster journal to its subscribers, when there is one.
    pub fn broadcast_caster_journal(&self, out: &mut Vec<HubAction>)
        ensures
            actions_view(final(out)@) == actions_view(old(out)@) + caster_journal_update(self@),
            targets_distinct(old(out)@) ==> targets_distinct(final(out)@),
    {
        let subs = subscriber_ids(self.registry.caster_journal_subscribers());
        proof {
            lemma_empty_ids(subs@, self@.registry.caster_journal);
        }
        if subs.len() == 0 {
            assert(actions_view(final(out)@) =~= actions_view(old(out)@) + caster_journal_update(self@));
            return;
        }
        match self.state.caster_journal_payload() {
            Some(payload) => self.topic(subs, "casterJournal.update", payload, out),
            None => {
                assert(actions_view(final(out)@) =~= actions_view(old(out)@) + caster_journal_update(self@));
            },
        }
    }

    /// Relays a Caster ticket fill to its subscribers; only objects are relayed.
    pub fn broadcast_caster_ticket(&self, fill: &JsonValue, out: &mut Vec<HubAction>)
        ensures
            actions_view(final(out)@) == actions_view(old(out)@) + notify_update(
                self@.registry.caster_ticket,
                "casterTicket.notify"@,
                fill@,
            ),
            targets_distinct(old(out)@) ==> targets_distinct(final(out)@),
    {
        if !fill.is_object() {
            assert(actions_view(final(out)@) =~= actions_view(old(out)@) + notify_update(self@.registry.caster_ticket, "casterTicket.notify"@, fill@));
            return;
        }
        let subs = subscriber_ids(self.registry.caster_ticket_subscribers());
        self.topic(subs, "casterTicket.notify", fill.deep_clone(), out);
    }

    /// Relays a Caster blow-up event to its subscribers; only objects are relayed.
    pub fn broadcast_caster_blowup(&self, event: &JsonValue, out: &mut Vec<HubAction>)
        ensures
            actions_view(final(out)@) == actions_view(old(out)@) + notify_update(
                self@.registry.caster_blowup,
                "casterBlowup.notify"@,
                event@,
            ),
            targets_distinct(old(out)@) ==> targets_distinct(final(out)@),
    {
        if !event.is_object() {
            assert(actions_view(final(out)@) =~= actions_view(old(out)@) + notify_update(self@.registry.caster_blowup, "casterBlowup.notify"@, event@));
            return;
        }
        let subs = subscriber_ids(self.registry.caster_blowup_subscribers());
        self.topic(subs, "casterBlowup.notify", event.deep_clone(), out);
    }

    /// The admin payload of a status: its listing plus the hub's version.
    fn enrich_admin_payload(&self, status: &BridgeStatus) -> (r: JsonValue)
        ensures
            r@ == admin_json(status@, self@.version),
    {
        broadcast use group_json_view;

        let payload = status_to_json(status);
        match payload {
            JsonValue::Object(mut es) => {
                let ghost before = es@;
                es.push((owned("version"), JsonValue::Str(self.version.clone())));
                assert(entries_view(es@) =~= entries_view(before).push(("version"@, jstr(self@.version))));
                JsonValue::Object(es)
            },
            other => other,
        }
    }

    /// The admin payload for the current connections.
    pub fn admin_snapshot(&self) -> (r: JsonValue)
        ensures
            exists|s: StatusView| #[trigger] is_snapshot(self@.registry, self@.host, self@.port, s)
                && r@ == admin_json(s, self@.version),
    {
        let status = self.registry.connections_snapshot(self.host.as_str(), self.port);
        assert(is_snapshot(self@.registry, self@.host, self@.port, status@));
        self.enrich_admin_payload(&status)
    }

    /// Sends the status listing to admin subscribers and to the tray.
    pub fn broadcast_admin_status(&self, out: &mut Vec<HubAction>)
        ensures
            final(out)@.len() == old(out)@.len() + 2,
            actions_view(final(out)@).take(old(out)@.len() as int) == actions_view(old(out)@),
            admin_status_out(self@, actions_view(final(out)@).skip(old(out)@.len() as int)),
            targets_distinct(old(out)@) ==> targets_distinct(final(out)@),
    {
        let subs = subscriber_ids(self.registry.admin_subscribers());
        let (status, raw) = self.registry.status_and_admin_payload(self.host.as_str(), self.port);
        let payload = self.enrich_admin_payload(&status);
        let message = make_envelope("admin.update", JsonValue::Null, payload);
        let ghost sv = status@;
        assert(is_snapshot(self@.registry, self@.host, self@.port, sv));
        out.push(HubAction::Broadcast { conns: subs, message });
        out.push(HubAction::Status(status));
        let ghost fv = actions_view(final(out)@);
        assert(fv.take(old(out)@.len() as int) =~= actions_view(old(out)@));
        assert(fv.skip(old(out)@.len() as int) =~= seq![
            ActionView::Broadcast {
                conns: self@.registry.admin,
                message: envelope("admin.update"@, JsonView::Null, admin_json(sv, self@.version)),
            },
            ActionView::Status(sv),
        ]);
    }

    /// What the hub does when the Monitor publisher disconnects: it forgets
    /// the publisher and what it published, then updates watchlist and vault
    /// subscribers and the admin listing.
    pub fn on_monitor_publisher_disconnect(&mut self) -> (out: Vec<HubAction>)
        ensures
            final(self)@ == after_publisher_left(old(self)@),
            publisher_left_out(final(self)@, actions_view(out@)),
            targets_distinct(out@),
    {
        self.registry.clear_monitor_publisher();
        self.state.clear_monitor_publisher_state();
        let mut out: Vec<HubAction> = Vec::new();
        assert(actions_view(out@) =~= Seq::<ActionView>::empty());
        self.broadcast_watchlist(&mut out);
        self.broadcast_vault(&mut out);
        let ghost n = out@.len();
        let ghost first = actions_view(out@);
        assert(first =~= watchlist_update(self@) + vault_update(self@));
        self.broadcast_admin_status(&mut out);
        assert(actions_view(out@).take(n as int) == first);
        assert(n == watchlist_update(self@).len() + vault_update(self@).len());
        assert(actions_view(out@).len() == out@.len());
        proof {
            let rest = actions_view(out@).skip(n as int);
            let sv = choose|sv: StatusView| #[trigger] is_snapshot(self@.registry, self@.host, self@.port, sv) && rest == seq![
                ActionView::Broadcast {
                    conns: self@.registry.admin,
                    message: envelope("admin.update"@, JsonView::Null, admin_json(sv, self@.version)),
                },
                ActionView::Status(sv),
            ];
            assert(rest.len() == 2);
            let c2 = self@;
            let m = (watchlist_update(c2).len() + vault_update(c2).len()) as int;
            assert(m == n);
            assert(actions_view(out@).len() == m + 2);
            assert(actions_view(out@).take(m) == watchlist_update(c2) + vault_update(c2));
            assert(admin_status_out(c2, actions_view(out@).skip(m)));
        }
        out
    }
}


/// The `type` of an envelope; the empty text when it has none.
pub open spec fn msg_type(msg: JsonView) -> Seq<char> {
    match jget_str(msg, "type"@) {
        Some(t) => t,
        None => Seq::empty(),
    }
}

/// The `payload` of an envelope; `null` when it has none.
pub open spec fn payload_of(msg: JsonView) -> JsonView {
    match jget(msg, "payload"@) {
        Some(p) => p,
        None => JsonView::Null,
    }
}

/// The `schema` of an envelope, when it is an integer.
pub open spec fn schema_of(msg: JsonView) -> Option<int> {
    match jget(msg, "schema"@) {
        Some(v) => jas_i64(v),
        None => None,
    }
}

/// The id that replies carry: the request id unless it is empty.
pub open spec fn id_ref_of(msg: JsonView) -> Option<Seq<char>> {
    match msg_id_of(msg) {
        Some(s) => if s.len() > 0 {
            Some(s)
        } else {
            None
        },
        None => None,
    }
}

pub open spec fn opt_str_view(o: Option<&str>) -> Option<Seq<char>> {
    match o {
        Some(s) => Some(s@),
        None => None,
    }
}

pub open spec fn or_default(o: Option<Seq<char>>, d: Seq<char>) -> Seq<char> {
    match o {
        Some(s) => s,
        None => d,
    }
}

pub open spec fn error_json(id: Option<Seq<char>>, code: Seq<char>, message: Seq<char>) -> JsonView {
    envelope(
        "error"@,
        jopt_str(id),
        JsonView::Object(seq![("code"@, jstr(code)), ("message"@, jstr(message))]),
    )
}

/// A reply of type `t` to `conn`.
pub open spec fn reply(conn: ConnId, t: Seq<char>, idr: Option<Seq<char>>, payload: JsonView) -> ActionView {
    ActionView::Send { conn, message: envelope(t, jopt_str(idr), payload) }
}

pub open spec fn ok_json() -> JsonView {
    JsonView::Object(seq![("ok"@, JsonView::Bool(true))])
}

pub open spec fn empty_object() -> JsonView {
    JsonView::Object(Seq::empty())
}

pub open spec fn or_empty(o: Option<JsonView>) -> JsonView {
    match o {
        Some(v) => v,
        None => empty_object(),
    }
}

pub open spec fn hello_json(version: Seq<char>) -> JsonView {
    JsonView::Object(
        seq![("app"@, jstr("arcane-bridge"@)), ("protocol"@, jnat(1)), ("version"@, jstr(version))],
    )
}

pub open spec fn session_json(token: Option<Seq<char>>) -> JsonView {
    match token {
        Some(t) => JsonView::Object(seq![("ok"@, JsonView::Bool(true)), ("token"@, jstr(t))]),
        None => JsonView::Object(
            seq![("ok"@, JsonView::Bool(false)), ("reason"@, jstr("not_logged_in"@))],
        ),
    }
}

/// The session token a `session.publish` carries: its trimmed `token` when
/// that is a non-blank string.
pub open spec fn published_token(p: JsonView) -> Option<Seq<char>> {
    match jget_str(p, "token"@) {
        Some(t) => if trimmed(t).len() > 0 {
            Some(trimmed(t))
        } else {
            None
        },
        None => None,
    }
}

/// The feed focus a `feedFocus.publish` carries: its trimmed, upper-cased
/// `symbol` when that is a non-blank string.
pub open spec fn focus_symbol(p: JsonView) -> Option<Seq<char>> {
    match jget_str(p, "symbol"@) {
        Some(t) => if trimmed(t).len() > 0 {
            Some(upper_case(trimmed(t)))
        } else {
            None
        },
        None => None,
    }
}

pub open spec fn focus_ack_json(sym: Option<Seq<char>>) -> JsonView {
    JsonView::Object(seq![("ok"@, JsonView::Bool(true)), ("symbol"@, jopt_str(sym))])
}

pub open spec fn with_state(c: ContextView, st: HubStateView) -> ContextView {
    ContextView { state: st, ..c }
}

pub open spec fn with_registry(c: ContextView, r: RegistryView) -> ContextView {
    ContextView { registry: r, ..c }
}

/// `c2` and `out` are what a registration or subscription that tags `conn`
/// leads to: the registry `r1` with `conn` tagged, the admin status, then `last`.
pub open spec fn tagged_then(
    c: ContextView,
    r1: RegistryView,
    conn: ConnId,
    role: ClientRole,
    client_id: Seq<char>,
    c2: ContextView,
    out: Seq<ActionView>,
) -> bool {
    &&& tagged(r1, c2.registry, conn, role, client_id)
    &&& c2 == with_registry(c, c2.registry)
    &&& out.len() == 3
    &&& admin_status_out(c2, out.take(2))
}

/// `hello`: the hub introduces itself.
pub open spec fn on_hello(c: ContextView, conn: ConnId, idr: Option<Seq<char>>, c2: ContextView, out: Seq<ActionView>) -> bool {
    c2 == c && out == seq![reply(conn, "hello.ack"@, idr, hello_json(c.version))]
}

/// `monitor.register`: the sender becomes the Monitor publisher.
pub open spec fn on_monitor_register(c: ContextView, conn: ConnId, idr: Option<Seq<char>>, c2: ContextView, out: Seq<ActionView>) -> bool {
    &&& tagged_then(c, RegistryView { publisher: Some(conn), ..c.registry }, conn, ClientRole::Monitor,
        or_default(idr, "monitor-publisher"@), c2, out)
    &&& out[2] == reply(conn, "monitor.register.ack"@, idr, ok_json())
}

/// `session.request`: the Monitor session token, when there is one.
pub open spec fn on_session_request(c: ContextView, conn: ConnId, idr: Option<Seq<char>>, c2: ContextView, out: Seq<ActionView>) -> bool {
    c2 == c && out == seq![reply(conn, "session.response"@, idr, session_json(c.state.monitor_token))]
}

/// `session.publish`: Monitor's session token is kept (or cleared); no reply.
pub open spec fn on_session_publish(c: ContextView, p: JsonView, c2: ContextView, out: Seq<ActionView>) -> bool {
    c2 == with_state(c, HubStateView { monitor_token: kept_token(published_token(p)), ..c.state })
        && out == Seq::<ActionView>::empty()
}

/// `watchlist.publish`: the watchlist is merged, sent to subscribers, acknowledged.
pub open spec fn on_watchlist_publish(c: ContextView, conn: ConnId, p: JsonView, idr: Option<Seq<char>>, c2: ContextView, out: Seq<ActionView>) -> bool {
    let c1 = with_state(c, HubStateView { watchlist: merged_watchlist(c.state.watchlist, p), ..c.state });
    c2 == c1 && out == watchlist_update(c1) + seq![reply(conn, "watchlist.publish.ack"@, idr, ok_json())]
}

/// `vault.publish`: the vault is merged, sent to subscribers, acknowledged.
pub open spec fn on_vault_publish(c: ContextView, conn: ConnId, p: JsonView, idr: Option<Seq<char>>, c2: ContextView, out: Seq<ActionView>) -> bool {
    let c1 = with_state(c, HubStateView { vault: merged_vault(c.state.vault, p), ..c.state });
    c2 == c1 && out == vault_update(c1) + seq![reply(conn, "vault.publish.ack"@, idr, ok_json())]
}

/// `feedFocus.publish`: Caster's feed focus replaces the watchlist's.
pub open spec fn on_feed_focus(c: ContextView, conn: ConnId, p: JsonView, idr: Option<Seq<char>>, c2: ContextView, out: Seq<ActionView>) -> bool {
    let c1 = with_state(c, HubStateView {
        watchlist: WatchlistView { feed_focus_symbol: focus_symbol(p), ..c.state.watchlist },
        ..c.state
    });
    c2 == c1 && out == watchlist_update(c1) + seq![reply(conn, "feedFocus.ack"@, idr, focus_ack_json(focus_symbol(p)))]
}

/// `casterAccount.publish`.
pub open spec fn on_caster_account_publish(c: ContextView, conn: ConnId, p: JsonView, idr: Option<Seq<char>>, c2: ContextView, out: Seq<ActionView>) -> bool {
    let c1 = with_state(c, HubStateView { caster_account: merged_object(c.state.caster_account, p), ..c.state });
    c2 == c1 && out == caster_account_update(c1) + seq![reply(conn, "casterAccount.ack"@, idr, ok_json())]
}

/// A subscription that answers with the current value when there is one.
pub open spec fn subscribed_with_snapshot(c: ContextView, r: RegistryView, conn: ConnId, t: Seq<char>, idr: Option<Seq<char>>, v: Option<JsonView>, c2: ContextView, out: Seq<ActionView>) -> bool {
    c2 == with_registry(c, r) && out == match v {
        Some(x) => seq![reply(conn, t, idr, x)],
        None => Seq::<ActionView>::empty(),
    }
}

/// `casterJournal.publish`.
pub open spec fn on_caster_journal_publish(c: ContextView, conn: ConnId, p: JsonView, idr: Option<Seq<char>>, c2: ContextView, out: Seq<ActionView>) -> bool {
    let c1 = with_state(c, HubStateView { caster_journal: merged_object(c.state.caster_journal, p), ..c.state });
    c2 == c1 && out == caster_journal_update(c1) + seq![reply(conn, "casterJournal.ack"@, idr, ok_json())]
}

/// A relayed notification, then its acknowledgement.
pub open spec fn notified(c: ContextView, subs: Set<ConnId>, conn: ConnId, t: Seq<char>, ack: Seq<char>, p: JsonView, idr: Option<Seq<char>>, c2: ContextView, out: Seq<ActionView>) -> bool {
    c2 == c && out == notify_update(subs, t, p) + seq![reply(conn, ack, idr, ok_json())]
}

/// `watchlist.subscribe`: the sender is tagged by its id and gets the watchlist.
pub open spec fn on_watchlist_subscribe(c: ContextView, conn: ConnId, idr: Option<Seq<char>>, c2: ContextView, out: Seq<ActionView>) -> bool {
    &&& tagged_then(c, RegistryView { watchlist: c.registry.watchlist.insert(conn), ..c.registry }, conn,
        infer_role(idr), or_default(idr, "watchlist-subscriber"@), c2, out)
    &&& out[2] == reply(conn, "watchlist.snapshot"@, idr, watchlist_json(c.state.watchlist))
}

/// `admin.subscribe`: the sender is tagged as the Bridge app and gets the listing.
pub open spec fn on_admin_subscribe(c: ContextView, conn: ConnId, idr: Option<Seq<char>>, c2: ContextView, out: Seq<ActionView>) -> bool {
    &&& tagged_then(c, RegistryView { admin: c.registry.admin.insert(conn), ..c.registry }, conn,
        ClientRole::BridgeApp, or_default(idr, "bridge-admin"@), c2, out)
    &&& exists|s: StatusView| #[trigger] is_snapshot(c2.registry, c.host, c.port, s)
        && out[2] == reply(conn, "admin.snapshot"@, idr, admin_json(s, c.version))
}

/// `admin.request`: the listing.
pub open spec fn on_admin_request(c: ContextView, conn: ConnId, idr: Option<Seq<char>>, c2: ContextView, out: Seq<ActionView>) -> bool {
    &&& c2 == c
    &&& out.len() == 1
    &&& exists|s: StatusView| #[trigger] is_snapshot(c.registry, c.host, c.port, s)
        && out[0] == reply(conn, "admin.response"@, idr, admin_json(s, c.version))
}

/// What the hub does with an envelope of type `t` (schema 1) from `conn`.
pub open spec fn handled_type(
    c: ContextView,
    conn: ConnId,
    t: Seq<char>,
    p: JsonView,
    idr: Option<Seq<char>>,
    c2: ContextView,
    out: Seq<ActionView>,
) -> bool {
    let reg = c.registry;
    let st = c.state;
    if t == "hello"@ {
        on_hello(c, conn, idr, c2, out)
    } else if t == "monitor.register"@ {
        on_monitor_register(c, conn, idr, c2, out)
    } else if t == "session.request"@ {
        on_session_request(c, conn, idr, c2, out)
    } else if t == "session.publish"@ {
        on_session_publish(c, p, c2, out)
    } else if t == "watchlist.publish"@ {
        on_watchlist_publish(c, conn, p, idr, c2, out)
    } else if t == "vault.publish"@ {
        on_vault_publish(c, conn, p, idr, c2, out)
    } else if t == "feedFocus.publish"@ {
        on_feed_focus(c, conn, p, idr, c2, out)
    } else if t == "casterAccount.publish"@ {
        on_caster_account_publish(c, conn, p, idr, c2, out)
    } else if t == "casterAccount.subscribe"@ {
        subscribed_with_snapshot(c, RegistryView { caster_account: reg.caster_account.insert(conn), ..reg },
            conn, "casterAccount.snapshot"@, idr, st.caster_account, c2, out)
    } else if t == "casterAccount.request"@ {
        c2 == c && out == seq![reply(conn, "casterAccount.response"@, idr, or_empty(st.caster_account))]
    } else if t == "casterJournal.publish"@ {
        on_caster_journal_publish(c, conn, p, idr, c2, out)
    } else if t == "casterJournal.subscribe"@ {
        subscribed_with_snapshot(c, RegistryView { caster_journal: reg.caster_journal.insert(conn), ..reg },
            conn, "casterJournal.snapshot"@, idr, st.caster_journal, c2, out)
    } else if t == "casterJournal.request"@ {
        c2 == c && out == seq![reply(conn, "casterJournal.response"@, idr, or_empty(st.caster_journal))]
    } else if t == "casterTicket.notify"@ {
        notified(c, reg.caster_ticket, conn, "casterTicket.notify"@, "casterTicket.ack"@, p, idr, c2, out)
    } else if t == "casterTicket.subscribe"@ {
        c2 == with_registry(c, RegistryView { caster_ticket: reg.caster_ticket.insert(conn), ..reg })
            && out == Seq::<ActionView>::empty()
    } else if t == "casterBlowup.notify"@ {
        notified(c, reg.caster_blowup, conn, "casterBlowup.notify"@, "casterBlowup.ack"@, p, idr, c2, out)
    } else if t == "casterBlowup.subscribe"@ {
        c2 == with_registry(c, RegistryView { caster_blowup: reg.caster_blowup.insert(conn), ..reg })
            && out == Seq::<ActionView>::empty()
    } else if t == "guildsFeed.publish"@ {
        c2 == with_state(c, HubStateView { guilds_feed: merged_object(st.guilds_feed, p), ..st })
            && out == seq![reply(conn, "guildsFeed.ack"@, idr, ok_json())]
    } else if t == "guildsFeed.request"@ {
        c2 == c && out == seq![reply(conn, "guildsFeed.response"@, idr, or_empty(st.guilds_feed))]
    } else if t == "watchlist.subscribe"@ {
        on_watchlist_subscribe(c, conn, idr, c2, out)
    } else if t == "admin.subscribe"@ {
        on_admin_subscribe(c, conn, idr, c2, out)
    } else if t == "admin.request"@ {
        on_admin_request(c, conn, idr, c2, out)
    } else if t == "watchlist.request"@ {
        c2 == c && out == seq![reply(conn, "watchlist.response"@, idr, watchlist_json(st.watchlist))]
    } else if t == "vault.subscribe"@ {
        c2 == with_registry(c, RegistryView { vault: reg.vault.insert(conn), ..reg })
            && out == seq![reply(conn, "vault.snapshot"@, idr, vault_json(st.vault))]
    } else if t == "vault.request"@ {
        c2 == c && out == seq![reply(conn, "vault.response"@, idr, vault_json(st.vault))]
    } else {
        c2 == c && out == seq![
            ActionView::Send { conn, message: error_json(idr, "unknown_type"@, "Unknown type: "@ + t) },
        ]
    }
}

/// What the hub does with one envelope `msg` from `conn`
/// (`handle_message`): anything but an object is refused as an invalid
/// envelope, any schema but 1 as unsupported, then the type decides.
pub open spec fn handled(
    c: ContextView,
    conn: ConnId,
    msg: JsonView,
    c2: ContextView,
    out: Seq<ActionView>,
) -> bool {
    let idr = id_ref_of(msg);
    if !jis_object(msg) {
        c2 == c && out == seq![
            ActionView::Send { conn, message: error_json(None, "invalid_envelope"@, "Expected JSON object"@) },
        ]
    } else if schema_of(msg) != Some(1int) {
        c2 == c && out == seq![
            ActionView::Send { conn, message: error_json(idr, "unsupported_schema"@, "Only schema 1 is supported"@) },
        ]
    } else {
        handled_type(c, conn, msg_type(msg), payload_of(msg), idr, c2, out)
    }
}


/// Message types a client sends for Monitor to carry out.
pub open spec fn is_forward_type(t: Seq<char>) -> bool {
    t == "watchlist.add"@ || t == "watchlist.remove"@ || t == "activeHero.toggle"@ || t
        == "activeHero.setEnabled"@
}

/// Message types the hub accepts from the Monitor publisher's own lines.
pub open spec fn is_publish_type(t: Seq<char>) -> bool {
    t == "monitor.register"@ || t == "session.publish"@ || t == "watchlist.publish"@ || t
        == "vault.publish"@
}

/// A line as written on the wire: with a final newline.
pub open spec fn raw_line(l: Seq<char>) -> Seq<char> {
    if l.len() > 0 && l.last() == '\n' {
        l
    } else {
        l.push('\n')
    }
}

/// A received line worth handling: the trimmed text, unless it is blank.
pub open spec fn framed(l: Seq<char>) -> Option<Seq<char>> {
    if trimmed(l).len() == 0 {
        None
    } else {
        Some(trimmed(l))
    }
}

/// A received line's framed text and the envelope read from it: nothing for
/// a blank line or one that is not JSON.
pub open spec fn received(l: Seq<char>) -> Option<(Seq<char>, JsonView)> {
    match framed(l) {
        None => None,
        Some(t) => match parsed_json(t) {
            None => None,
            Some(m) => Some((t, m)),
        },
    }
}

/// What an action writes on the wire: a message as one JSON line, a
/// forwarded line as it is; a status goes to the tray, not the wire.
pub open spec fn wire_of(a: ActionView) -> Seq<char> {
    match a {
        ActionView::Send { message, .. } => json_text(message).push('\n'),
        ActionView::SendLine { line, .. } => line,
        ActionView::Broadcast { message, .. } => json_text(message).push('\n'),
        ActionView::Status(_) => Seq::empty(),
    }
}

/// What the hub does with a line from a client that is not the Monitor
/// publisher (`handle_client_line`): requests for Monitor are forwarded to it
/// as they are and remembered by id, or refused when Monitor is not
/// connected; anything else is handled as an envelope.
pub open spec fn client_line_handled(
    c: ContextView,
    conn: ConnId,
    msg: JsonView,
    line: Seq<char>,
    c2: ContextView,
    out: Seq<ActionView>,
) -> bool {
    let id = msg_id_of(msg);
    if is_forward_type(msg_type(msg)) {
        match c.registry.publisher {
            None => c2 == c && out == seq![
                ActionView::Send {
                    conn,
                    message: error_json(id, "monitor_unavailable"@, "Arcane Monitor is not connected"@),
                },
            ],
            Some(p) => c2 == (ContextView {
                pending: match id {
                    Some(r) => c.pending.insert(r, conn),
                    None => c.pending,
                },
                ..c
            }) && out == seq![ActionView::SendLine { conn: p, line: raw_line(line) }],
        }
    } else {
        handled(c, conn, msg, c2, out)
    }
}

/// What the hub does with a line from the Monitor publisher
/// (`handle_monitor_publisher_line`): a reply to a forwarded request goes back,
/// as it is, to the client that asked (a watchlist reply also updates the
/// watchlist); the publisher's own publications are handled; anything else
/// is dropped.
pub open spec fn publisher_line_handled(
    c: ContextView,
    publisher: ConnId,
    msg: JsonView,
    line: Seq<char>,
    c2: ContextView,
    out: Seq<ActionView>,
) -> bool {
    let rid = msg_id_of(msg);
    if rid is Some && c.pending.contains_key(rid->0) {
        let client = c.pending[rid->0];
        let c1 = ContextView { pending: c.pending.remove(rid->0), ..c };
        if jget_str(msg, "type"@) == Some("watchlist.response"@) && jget(msg, "payload"@) is Some {
            let c3 = with_state(c1, HubStateView {
                watchlist: merged_watchlist(c1.state.watchlist, jget(msg, "payload"@)->0),
                ..c1.state
            });
            c2 == c3 && out == seq![ActionView::SendLine { conn: client, line: raw_line(line) }]
                + watchlist_update(c3)
        } else {
            c2 == c1 && out == seq![ActionView::SendLine { conn: client, line: raw_line(line) }]
        }
    } else if is_publish_type(msg_type(msg)) {
        handled(c, publisher, msg, c2, out)
    } else {
        c2 == c && out == Seq::<ActionView>::empty()
    }
}

/// A line from `conn`: the Monitor publisher's lines and other clients' lines
/// are handled apart.
pub open spec fn line_handled(
    c: ContextView,
    conn: ConnId,
    msg: JsonView,
    line: Seq<char>,
    c2: ContextView,
    out: Seq<ActionView>,
) -> bool {
    if c.registry.publisher == Some(conn) {
        publisher_line_handled(c, conn, msg, line, c2, out)
    } else {
        client_line_handled(c, conn, msg, line, c2, out)
    }
}

/// Requests still waiting, once those from `conn` are dropped.
pub open spec fn pending_without(m: Map<Seq<char>, ConnId>, conn: ConnId) -> Map<Seq<char>, ConnId> {
    Map::new(|k: Seq<char>| m.contains_key(k) && m[k] != conn, |k: Seq<char>| m[k])
}

/// What the hub does when `conn` disconnects (`remove_conn`): it forgets the
/// connection and its waiting requests; if it was the Monitor publisher the
/// hub also forgets what Monitor published, otherwise it updates the admin
/// listing.
pub open spec fn conn_removed(c: ContextView, conn: ConnId, c2: ContextView, out: Seq<ActionView>) -> bool {
    let c1 = ContextView {
        registry: without_conn(c.registry, conn),
        pending: pending_without(c.pending, conn),
        ..c
    };
    if c.registry.publisher == Some(conn) {
        c2 == after_publisher_left(c1) && publisher_left_out(c2, out)
    } else {
        c2 == c1 && admin_status_out(c1, out)
    }
}

} // verus!
