//! How the hub handles each message: the executable side of the protocol.
use vstd::prelude::*;
use crate::hub_state::{HubStateView, opt_view};
use crate::json::{
    JsonValue, JsonView, make_envelope, json_str, json_opt_str, json_nat, jstr, jnat, jopt_str,
    entries_view, group_json_view, msg_id, jget, jget_str, msg_id_of, parse_json_line, json_line,
};
use crate::protocol::{
    HubAction, ActionView, HubContext, action_view, actions_view, targets_distinct, reply,
    error_json, ok_json, empty_object, hello_json, session_json, focus_ack_json, focus_symbol,
    published_token, opt_str_view, or_default, or_empty, on_hello, on_monitor_register,
    on_session_request, on_session_publish, on_watchlist_publish, on_vault_publish, on_feed_focus,
    on_caster_account_publish, on_caster_journal_publish, notified, notify_update,
    on_watchlist_subscribe, on_admin_subscribe, on_admin_request, watchlist_update, vault_update,
    caster_account_update, caster_journal_update, msg_type, handled, id_ref_of, payload_of,
    is_forward_type, is_publish_type, raw_line, framed, client_line_handled, publisher_line_handled,
    line_handled, conn_removed, received, wire_of,
};
use crate::registry::{ConnId, ClientRole, RegistryView, infer_role_from_client_id, is_snapshot};
use crate::status::StatusView;
use crate::text::{owned, str_eq, trim, to_upper, chars_of, string_from_chars};

verus! {

broadcast use vstd::std_specs::hash::group_hash_axioms;

/// A reply of type `t` to `conn`.
pub fn reply_action(conn: ConnId, t: &str, idr: Option<&str>, payload: JsonValue) -> (a: HubAction)
    ensures
        action_view(a) == reply(conn, t@, opt_str_view(idr), payload@),
{
    HubAction::Send { conn, message: make_envelope(t, json_opt_str(idr), payload) }
}

/// An `error` envelope (`error_line`).
pub fn error_line(id: Option<&str>, code: &str, message: &str) -> (r: JsonValue)
    ensures
        r@ == error_json(opt_str_view(id), code@, message@),
{
    broadcast use group_json_view;

    let entries = vec![(owned("code"), json_str(code)), (owned("message"), json_str(message))];
    assert(entries_view(entries@) =~= seq![("code"@, jstr(code@)), ("message"@, jstr(message@))]);
    make_envelope("error", json_opt_str(id), JsonValue::Object(entries))
}

fn ok_payload() -> (r: JsonValue)
    ensures
        r@ == ok_json(),
{
    broadcast use group_json_view;

    let entries = vec![(owned("ok"), JsonValue::Bool(true))];
    assert(entries_view(entries@) =~= seq![("ok"@, JsonView::Bool(true))]);
    JsonValue::Object(entries)
}

fn empty_payload() -> (r: JsonValue)
    ensures
        r@ == empty_object(),
{
    broadcast use group_json_view;

    let entries: Vec<(String, JsonValue)> = Vec::new();
    assert(entries_view(entries@) =~= Seq::empty());
    JsonValue::Object(entries)
}

fn hello_payload(version: &str) -> (r: JsonValue)
    ensures
        r@ == hello_json(version@),
{
    broadcast use group_json_view;

    let entries = vec![
        (owned("app"), json_str("arcane-bridge")),
        (owned("protocol"), json_nat(1)),
        (owned("version"), json_str(version)),
    ];
    assert(entries_view(entries@) =~= seq![("app"@, jstr("arcane-bridge"@)), ("protocol"@, jnat(1)), ("version"@, jstr(version@))]);
    JsonValue::Object(entries)
}

fn session_payload(token: Option<&str>) -> (r: JsonValue)
    ensures
        r@ == session_json(opt_str_view(token)),
{
    broadcast use group_json_view;

    match token {
        Some(t) => {
            let entries = vec![(owned("ok"), JsonValue::Bool(true)), (owned("token"), json_str(t))];
            assert(entries_view(entries@) =~= seq![("ok"@, JsonView::Bool(true)), ("token"@, jstr(t@))]);
            JsonValue::Object(entries)
        },
        None => {
            let entries = vec![
                (owned("ok"), JsonValue::Bool(false)),
                (owned("reason"), json_str("not_logged_in")),
            ];
            assert(entries_view(entries@) =~= seq![("ok"@, JsonView::Bool(false)), ("reason"@, jstr("not_logged_in"@))]);
            JsonValue::Object(entries)
        },
    }
}

fn focus_ack_payload(sym: Option<&str>) -> (r: JsonValue)
    ensures
        r@ == focus_ack_json(opt_str_view(sym)),
{
    broadcast use group_json_view;

    let s = json_opt_str(sym);
    let ghost sv = s@;
    let entries = vec![(owned("ok"), JsonValue::Bool(true)), (owned("symbol"), s)];
    assert(entries_view(entries@) =~= seq![("ok"@, JsonView::Bool(true)), ("symbol"@, sv)]);
    JsonValue::Object(entries)
}

/// The member `key` of `payload` read as a string.
fn member_str<'a>(payload: &'a JsonValue, key: &str) -> (r: Option<&'a str>)
    ensures
        opt_str_view(r) == jget_str(payload@, key@),
{
    match payload.get(key) {
        Some(v) => v.as_str(),
        None => None,
    }
}

fn published_token_of(p: &JsonValue) -> (r: Option<String>)
    ensures
        opt_view(r) == published_token(p@),
{
    match member_str(p, "token") {
        Some(t) => {
            let tt = trim(t);
            if tt.as_str().is_empty() {
                None
            } else {
                Some(tt)
            }
        },
        None => None,
    }
}

fn focus_symbol_of(p: &JsonValue) -> (r: Option<String>)
    ensures
        opt_view(r) == focus_symbol(p@),
{
    match member_str(p, "symbol") {
        Some(t) => {
            let tt = trim(t);
            if tt.as_str().is_empty() {
                None
            } else {
                Some(to_upper(tt.as_str()))
            }
        },
        None => None,
    }
}

fn as_str_opt(o: &Option<String>) -> (r: Option<&str>)
    ensures
        opt_str_view(r) == opt_view(*o),
{
    match o {
        Some(s) => Some(s.as_str()),
        None => None,
    }
}

fn or_default_str<'a>(o: Option<&'a str>, d: &'a str) -> (r: &'a str)
    ensures
        r@ == or_default(opt_str_view(o), d@),
{
    match o {
        Some(s) => s,
        None => d,
    }
}

/// Two actions followed by a third: the first two and the last are found again.
proof fn lemma_pair_then_last(out: Seq<ActionView>, first: Seq<ActionView>, last: ActionView)
    requires
        first.len() == 2,
        out == first.push(last),
    ensures
        out.len() == 3,
        out.take(2) == first,
        out[2] == last,
{
    assert(out.take(2) =~= first);
}

impl HubContext {
    fn on_hello_msg(&self, conn: ConnId, idr: Option<&str>) -> (out: Vec<HubAction>)
        ensures
            on_hello(self@, conn, opt_str_view(idr), self@, actions_view(out@)),
            targets_distinct(out@),
    {
        let out = vec![reply_action(conn, "hello.ack", idr, hello_payload(self.version.as_str()))];
        assert(actions_view(out@) =~= seq![reply(conn, "hello.ack"@, opt_str_view(idr), hello_json(self@.version))]);
        out
    }

    fn on_monitor_register_msg(&mut self, conn: ConnId, idr: Option<&str>) -> (out: Vec<HubAction>)
        ensures
            on_monitor_register(old(self)@, conn, opt_str_view(idr), final(self)@, actions_view(out@)),
            targets_distinct(out@),
    {
        self.registry.set_monitor_publisher(conn);
        self.registry.tag(conn, ClientRole::Monitor, or_default_str(idr, "monitor-publisher"));
        let mut out: Vec<HubAction> = Vec::new();
        self.broadcast_admin_status(&mut out);
        let ghost first = actions_view(out@);
        out.push(reply_action(conn, "monitor.register.ack", idr, ok_payload()));
        proof {
            assert(actions_view(out@) =~= first.push(reply(conn, "monitor.register.ack"@, opt_str_view(idr), ok_json())));
            lemma_pair_then_last(actions_view(out@), first, reply(conn, "monitor.register.ack"@, opt_str_view(idr), ok_json()));
            assert(first.skip(0) =~= first);
        }
        out
    }

    fn on_session_request_msg(&self, conn: ConnId, idr: Option<&str>) -> (out: Vec<HubAction>)
        ensures
            on_session_request(self@, conn, opt_str_view(idr), self@, actions_view(out@)),
            targets_distinct(out@),
    {
        let out = vec![reply_action(conn, "session.response", idr, session_payload(self.state.monitor_token()))];
        assert(actions_view(out@) =~= seq![reply(conn, "session.response"@, opt_str_view(idr), session_json(self@.state.monitor_token))]);
        out
    }

    fn on_session_publish_msg(&mut self, p: &JsonValue) -> (out: Vec<HubAction>)
        ensures
            on_session_publish(old(self)@, p@, final(self)@, actions_view(out@)),
            targets_distinct(out@),
    {
        let token = published_token_of(p);
        self.state.set_monitor_token(token);
        let out: Vec<HubAction> = Vec::new();
        assert(actions_view(out@) =~= Seq::<ActionView>::empty());
        out
    }

    fn on_watchlist_publish_msg(&mut self, conn: ConnId, p: &JsonValue, idr: Option<&str>) -> (out: Vec<HubAction>)
        ensures
            on_watchlist_publish(old(self)@, conn, p@, opt_str_view(idr), final(self)@, actions_view(out@)),
            targets_distinct(out@),
    {
        self.state.merge_watchlist_publish(p);
        let mut out: Vec<HubAction> = Vec::new();
        assert(actions_view(out@) =~= Seq::<ActionView>::empty());
        self.broadcast_watchlist(&mut out);
        out.push(reply_action(conn, "watchlist.publish.ack", idr, ok_payload()));
        assert(actions_view(out@) =~= watchlist_update(self@) + seq![reply(conn, "watchlist.publish.ack"@, opt_str_view(idr), ok_json())]);
        out
    }

    fn on_vault_publish_msg(&mut self, conn: ConnId, p: &JsonValue, idr: Option<&str>) -> (out: Vec<HubAction>)
        ensures
            on_vault_publish(old(self)@, conn, p@, opt_str_view(idr), final(self)@, actions_view(out@)),
            targets_distinct(out@),
    {
        self.state.merge_vault_publish(p);
        let mut out: Vec<HubAction> = Vec::new();
        assert(actions_view(out@) =~= Seq::<ActionView>::empty());
        self.broadcast_vault(&mut out);
        out.push(reply_action(conn, "vault.publish.ack", idr, ok_payload()));
        assert(actions_view(out@) =~= vault_update(self@) + seq![reply(conn, "vault.publish.ack"@, opt_str_view(idr), ok_json())]);
        out
    }

    fn on_feed_focus_msg(&mut self, conn: ConnId, p: &JsonValue, idr: Option<&str>) -> (out: Vec<HubAction>)
        ensures
            on_feed_focus(old(self)@, conn, p@, opt_str_view(idr), final(self)@, actions_view(out@)),
            targets_distinct(out@),
    {
        let sym = focus_symbol_of(p);
        let ack = focus_ack_payload(as_str_opt(&sym));
        self.state.set_feed_focus_symbol(sym);
        let mut out: Vec<HubAction> = Vec::new();
        assert(actions_view(out@) =~= Seq::<ActionView>::empty());
        self.broadcast_watchlist(&mut out);
        out.push(reply_action(conn, "feedFocus.ack", idr, ack));
        assert(actions_view(out@) =~= watchlist_update(self@) + seq![reply(conn, "feedFocus.ack"@, opt_str_view(idr), focus_ack_json(focus_symbol(p@)))]);
        out
    }

    fn on_caster_account_publish_msg(&mut self, conn: ConnId, p: &JsonValue, idr: Option<&str>) -> (out: Vec<HubAction>)
        ensures
            on_caster_account_publish(old(self)@, conn, p@, opt_str_view(idr), final(self)@, actions_view(out@)),
            targets_distinct(out@),
    {
        self.state.merge_caster_account_publish(p);
        let mut out: Vec<HubAction> = Vec::new();
        assert(actions_view(out@) =~= Seq::<ActionView>::empty());
        self.broadcast_caster_account(&mut out);
        out.push(reply_action(conn, "casterAccount.ack", idr, ok_payload()));
        assert(actions_view(out@) =~= caster_account_update(self@) + seq![reply(conn, "casterAccount.ack"@, opt_str_view(idr), ok_json())]);
        out
    }

    fn on_caster_journal_publish_msg(&mut self, conn: ConnId, p: &JsonValue, idr: Option<&str>) -> (out: Vec<HubAction>)
        ensures
            on_caster_journal_publish(old(self)@, conn, p@, opt_str_view(idr), final(self)@, actions_view(out@)),
            targets_distinct(out@),
    {
        self.state.merge_caster_journal_publish(p);
        let mut out: Vec<HubAction> = Vec::new();
        assert(actions_view(out@) =~= Seq::<ActionView>::empty());
        self.broadcast_caster_journal(&mut out);
        out.push(reply_action(conn, "casterJournal.ack", idr, ok_payload()));
        assert(actions_view(out@) =~= caster_journal_update(self@) + seq![reply(conn, "casterJournal.ack"@, opt_str_view(idr), ok_json())]);
        out
    }

    fn snapshot_reply(conn: ConnId, t: &str, idr: Option<&str>, v: Option<JsonValue>) -> (out: Vec<HubAction>)
        ensures
            actions_view(out@) == match crate::hub_state::opt_json(v) {
                Some(x) => seq![reply(conn, t@, opt_str_view(idr), x)],
                None => Seq::<ActionView>::empty(),
            },
            targets_distinct(out@),
    {
        match v {
            Some(snapshot) => {
                let ghost sv = snapshot@;
                let out = vec![reply_action(conn, t, idr, snapshot)];
                assert(actions_view(out@) =~= seq![reply(conn, t@, opt_str_view(idr), sv)]);
                out
            },
            None => {
                let out: Vec<HubAction> = Vec::new();
                assert(actions_view(out@) =~= Seq::<ActionView>::empty());
                out
            },
        }
    }

    fn response_or_empty(conn: ConnId, t: &str, idr: Option<&str>, v: Option<JsonValue>) -> (out: Vec<HubAction>)
        ensures
            actions_view(out@) == seq![reply(conn, t@, opt_str_view(idr), or_empty(crate::hub_state::opt_json(v)))],
            targets_distinct(out@),
    {
        let payload = match v {
            Some(x) => x,
            None => empty_payload(),
        };
        let ghost pv = payload@;
        let out = vec![reply_action(conn, t, idr, payload)];
        assert(actions_view(out@) =~= seq![reply(conn, t@, opt_str_view(idr), pv)]);
        out
    }

    fn single_reply(conn: ConnId, t: &str, idr: Option<&str>, payload: JsonValue) -> (out: Vec<HubAction>)
        ensures
            actions_view(out@) == seq![reply(conn, t@, opt_str_view(idr), payload@)],
            targets_distinct(out@),
    {
        let ghost pv = payload@;
        let out = vec![reply_action(conn, t, idr, payload)];
        assert(actions_view(out@) =~= seq![reply(conn, t@, opt_str_view(idr), pv)]);
        out
    }

    fn notify_msg(&self, ticket: bool, conn: ConnId, p: &JsonValue, ack: &str, idr: Option<&str>) -> (out: Vec<HubAction>)
        ensures
            ticket ==> notified(self@, self@.registry.caster_ticket, conn, "casterTicket.notify"@, ack@, p@, opt_str_view(idr), self@, actions_view(out@)),
            !ticket ==> notified(self@, self@.registry.caster_blowup, conn, "casterBlowup.notify"@, ack@, p@, opt_str_view(idr), self@, actions_view(out@)),
            targets_distinct(out@),
    {
        let mut out: Vec<HubAction> = Vec::new();
        assert(actions_view(out@) =~= Seq::<ActionView>::empty());
        if p.is_object() {
            if ticket {
                self.broadcast_caster_ticket(p, &mut out);
            } else {
                self.broadcast_caster_blowup(p, &mut out);
            }
        } else {
            assert(actions_view(out@) =~= notify_update(self@.registry.caster_ticket, "casterTicket.notify"@, p@));
            assert(actions_view(out@) =~= notify_update(self@.registry.caster_blowup, "casterBlowup.notify"@, p@));
        }
        let ghost first = actions_view(out@);
        out.push(reply_action(conn, ack, idr, ok_payload()));
        assert(actions_view(out@) =~= first + seq![reply(conn, ack@, opt_str_view(idr), ok_json())]);
        out
    }

    fn on_watchlist_subscribe_msg(&mut self, conn: ConnId, idr: Option<&str>) -> (out: Vec<HubAction>)
        ensures
            on_watchlist_subscribe(old(self)@, conn, opt_str_view(idr), final(self)@, actions_view(out@)),
            targets_distinct(out@),
    {
        let role = infer_role_from_client_id(idr);
        self.registry.watchlist_subscribers_mut().insert(conn);
        self.registry.tag(conn, role, or_default_str(idr, "watchlist-subscriber"));
        let mut out: Vec<HubAction> = Vec::new();
        self.broadcast_admin_status(&mut out);
        let ghost first = actions_view(out@);
        let snapshot = self.state.watchlist_payload();
        out.push(reply_action(conn, "watchlist.snapshot", idr, snapshot));
        proof {
            let last = reply(conn, "watchlist.snapshot"@, opt_str_view(idr), crate::hub_state::watchlist_json(old(self)@.state.watchlist));
            assert(actions_view(out@) =~= first.push(last));
            lemma_pair_then_last(actions_view(out@), first, last);
            assert(first.skip(0) =~= first);
        }
        out
    }

    fn on_admin_subscribe_msg(&mut self, conn: ConnId, idr: Option<&str>) -> (out: Vec<HubAction>)
        ensures
            on_admin_subscribe(old(self)@, conn, opt_str_view(idr), final(self)@, actions_view(out@)),
            targets_distinct(out@),
    {
        self.registry.admin_subscribers_mut().insert(conn);
        self.registry.tag(conn, ClientRole::BridgeApp, or_default_str(idr, "bridge-admin"));
        let snapshot = self.admin_snapshot();
        let ghost snap = snapshot@;
        let mut out: Vec<HubAction> = Vec::new();
        self.broadcast_admin_status(&mut out);
        let ghost first = actions_view(out@);
        out.push(reply_action(conn, "admin.snapshot", idr, snapshot));
        proof {
            let last = reply(conn, "admin.snapshot"@, opt_str_view(idr), snap);
            assert(actions_view(out@) =~= first.push(last));
            lemma_pair_then_last(actions_view(out@), first, last);
            assert(first.skip(0) =~= first);
        }
        out
    }

    fn on_admin_request_msg(&self, conn: ConnId, idr: Option<&str>) -> (out: Vec<HubAction>)
        ensures
            on_admin_request(self@, conn, opt_str_view(idr), self@, actions_view(out@)),
            targets_distinct(out@),
    {
        let snapshot = self.admin_snapshot();
        Self::single_reply(conn, "admin.response", idr, snapshot)
    }
}

/// The id replies carry: the request id unless it is empty.
fn id_ref<'a>(id: &'a Option<String>) -> (r: Option<&'a str>)
    ensures
        opt_str_view(r) == match opt_view(*id) {
            Some(s) => if s.len() > 0 { Some(s) } else { None },
            None => None,
        },
{
    match id {
        Some(s) => if s.as_str().is_empty() {
            None
        } else {
            Some(s.as_str())
        },
        None => None,
    }
}

/// The `type` member of an envelope, as text; empty when it has none.
pub fn message_type(msg: &JsonValue) -> (r: &str)
    ensures
        r@ == msg_type(msg@),
{
    proof {
        reveal_strlit("");
    }
    match member_str(msg, "type") {
        Some(t) => t,
        None => "",
    }
}

/// Handles one envelope from `conn`.
pub fn handle_message(ctx: &mut HubContext, conn: ConnId, msg: &JsonValue) -> (out: Vec<HubAction>)
    ensures
        handled(old(ctx)@, conn, msg@, final(ctx)@, actions_view(out@)),
        targets_distinct(out@),
{
    if !msg.is_object() {
        let out = vec![HubAction::Send { conn, message: error_line(None, "invalid_envelope", "Expected JSON object") }];
        assert(actions_view(out@) =~= seq![ActionView::Send { conn, message: error_json(None, "invalid_envelope"@, "Expected JSON object"@) }]);
        return out;
    }
    let schema = match msg.get("schema") {
        Some(v) => v.as_i64(),
        None => None,
    };
    let id = msg_id(msg);
    let idr = id_ref(&id);
    assert(opt_str_view(idr) == id_ref_of(msg@));
    if schema != Some(1i64) {
        let out = vec![HubAction::Send { conn, message: error_line(idr, "unsupported_schema", "Only schema 1 is supported") }];
        assert(actions_view(out@) =~= seq![ActionView::Send { conn, message: error_json(id_ref_of(msg@), "unsupported_schema"@, "Only schema 1 is supported"@) }]);
        return out;
    }
    let t = message_type(msg);
    let payload = match msg.get("payload") {
        Some(p) => p.deep_clone(),
        None => JsonValue::Null,
    };
    assert(payload@ == payload_of(msg@));
    if str_eq(t, "hello") {
        ctx.on_hello_msg(conn, idr)
    } else if str_eq(t, "monitor.register") {
        ctx.on_monitor_register_msg(conn, idr)
    } else if str_eq(t, "session.request") {
        ctx.on_session_request_msg(conn, idr)
    } else if str_eq(t, "session.publish") {
        ctx.on_session_publish_msg(&payload)
    } else if str_eq(t, "watchlist.publish") {
        ctx.on_watchlist_publish_msg(conn, &payload, idr)
    } else if str_eq(t, "vault.publish") {
        ctx.on_vault_publish_msg(conn, &payload, idr)
    } else if str_eq(t, "feedFocus.publish") {
        ctx.on_feed_focus_msg(conn, &payload, idr)
    } else if str_eq(t, "casterAccount.publish") {
        ctx.on_caster_account_publish_msg(conn, &payload, idr)
    } else if str_eq(t, "casterAccount.subscribe") {
        ctx.registry.caster_account_subscribers_mut().insert(conn);
        HubContext::snapshot_reply(conn, "casterAccount.snapshot", idr, ctx.state.caster_account_payload())
    } else if str_eq(t, "casterAccount.request") {
        HubContext::response_or_empty(conn, "casterAccount.response", idr, ctx.state.caster_account_payload())
    } else if str_eq(t, "casterJournal.publish") {
        ctx.on_caster_journal_publish_msg(conn, &payload, idr)
    } else if str_eq(t, "casterJournal.subscribe") {
        ctx.registry.caster_journal_subscribers_mut().insert(conn);
        HubContext::snapshot_reply(conn, "casterJournal.snapshot", idr, ctx.state.caster_journal_payload())
    } else if str_eq(t, "casterJournal.request") {
        HubContext::response_or_empty(conn, "casterJournal.response", idr, ctx.state.caster_journal_payload())
    } else if str_eq(t, "casterTicket.notify") {
        ctx.notify_msg(true, conn, &payload, "casterTicket.ack", idr)
    } else if str_eq(t, "casterTicket.subscribe") {
        ctx.registry.caster_ticket_subscribers_mut().insert(conn);
        let out: Vec<HubAction> = Vec::new();
        assert(actions_view(out@) =~= Seq::<ActionView>::empty());
        out
    } else if str_eq(t, "casterBlowup.notify") {
        ctx.notify_msg(false, conn, &payload, "casterBlowup.ack", idr)
    } else if str_eq(t, "casterBlowup.subscribe") {
        ctx.registry.caster_blowup_subscribers_mut().insert(conn);
        let out: Vec<HubAction> = Vec::new();
        assert(actions_view(out@) =~= Seq::<ActionView>::empty());
        out
    } else if str_eq(t, "guildsFeed.publish") {
        ctx.state.merge_guilds_feed_publish(&payload);
        HubContext::single_reply(conn, "guildsFeed.ack", idr, ok_payload())
    } else if str_eq(t, "guildsFeed.request") {
        HubContext::response_or_empty(conn, "guildsFeed.response", idr, ctx.state.guilds_feed_payload())
    } else if str_eq(t, "watchlist.subscribe") {
        ctx.on_watchlist_subscribe_msg(conn, idr)
    } else if str_eq(t, "admin.subscribe") {
        ctx.on_admin_subscribe_msg(conn, idr)
    } else if str_eq(t, "admin.request") {
        ctx.on_admin_request_msg(conn, idr)
    } else if str_eq(t, "watchlist.request") {
        HubContext::single_reply(conn, "watchlist.response", idr, ctx.state.watchlist_payload())
    } else if str_eq(t, "vault.subscribe") {
        ctx.registry.vault_subscribers_mut().insert(conn);
        HubContext::single_reply(conn, "vault.snapshot", idr, ctx.state.vault_payload())
    } else if str_eq(t, "vault.request") {
        HubContext::single_reply(conn, "vault.response", idr, ctx.state.vault_payload())
    } else {
        let mut text = owned("Unknown type: ");
        text.append(t);
        let out = vec![HubAction::Send { conn, message: error_line(idr, "unknown_type", text.as_str()) }];
        assert(actions_view(out@) =~= seq![ActionView::Send { conn, message: error_json(id_ref_of(msg@), "unknown_type"@, "Unknown type: "@ + t@) }]);
        out
    }
}


/// Whether a message type is one that clients send for Monitor to carry out.
pub fn is_forward_to_monitor(msg_type: &str) -> (r: bool)
    ensures
        r == is_forward_type(msg_type@),
{
    str_eq(msg_type, "watchlist.add") || str_eq(msg_type, "watchlist.remove") || str_eq(
        msg_type,
        "activeHero.toggle",
    ) || str_eq(msg_type, "activeHero.setEnabled")
}

/// Whether a message type is one of the Monitor publisher's publications.
pub fn is_monitor_publish_type(msg_type: &str) -> (r: bool)
    ensures
        r == is_publish_type(msg_type@),
{
    str_eq(msg_type, "monitor.register") || str_eq(msg_type, "session.publish") || str_eq(
        msg_type,
        "watchlist.publish",
    ) || str_eq(msg_type, "vault.publish")
}

/// The text of a received line worth handling: trimmed, and nothing for a
/// blank line.
pub fn frame_line(line: &str) -> (r: Option<String>)
    ensures
        opt_view(r) == framed(line@),
{
    let t = trim(line);
    if t.as_str().is_empty() {
        None
    } else {
        Some(t)
    }
}

/// A line as it goes on the wire: with a newline at its end.
pub fn raw_line_text(line: &str) -> (r: String)
    ensures
        r@ == raw_line(line@),
{
    let mut cs = chars_of(line);
    let n = cs.len();
    if !(n > 0 && cs[n - 1] == '\n') {
        cs.push('\n');
    }
    string_from_chars(cs.as_slice())
}

/// Handles a client's envelope `msg`, read from the framed text `line`.
fn client_message(ctx: &mut HubContext, conn: ConnId, line: &str, msg: &JsonValue) -> (out: Vec<HubAction>)
    ensures
        client_line_handled(old(ctx)@, conn, msg@, line@, final(ctx)@, actions_view(out@)),
        targets_distinct(out@),
{
    let t = message_type(msg);
    let id = msg_id(msg);
    if is_forward_to_monitor(t) {
        match ctx.registry.monitor_publisher() {
            None => {
                let out = vec![
                    HubAction::Send {
                        conn,
                        message: error_line(as_str_opt(&id), "monitor_unavailable", "Arcane Monitor is not connected"),
                    },
                ];
                assert(actions_view(out@) =~= seq![ActionView::Send { conn, message: error_json(msg_id_of(msg@), "monitor_unavailable"@, "Arcane Monitor is not connected"@) }]);
                out
            },
            Some(publisher) => {
                match id {
                    Some(rid) => ctx.pending_by_request_id.insert(rid, conn),
                    None => {},
                }
                let out = vec![HubAction::SendLine { conn: publisher, line: raw_line_text(line) }];
                assert(actions_view(out@) =~= seq![ActionView::SendLine { conn: publisher, line: raw_line(line@) }]);
                out
            },
        }
    } else {
        handle_message(ctx, conn, msg)
    }
}

/// Handles the Monitor publisher's envelope `msg`, read from the framed text
/// `line`.
fn publisher_message(ctx: &mut HubContext, publisher: ConnId, line: &str, msg: &JsonValue) -> (out: Vec<HubAction>)
    ensures
        publisher_line_handled(old(ctx)@, publisher, msg@, line@, final(ctx)@, actions_view(out@)),
        targets_distinct(out@),
{
    let req_id = msg_id(msg);
    if let Some(rid) = &req_id {
        let found = ctx.pending_by_request_id.remove(rid.as_str());
        if found.is_none() {
            assert(ctx@.pending =~= old(ctx)@.pending);
            assert(ctx@ == old(ctx)@);
        }
        if let Some(client) = found {
            let mut out = vec![HubAction::SendLine { conn: client, line: raw_line_text(line) }];
            let ghost first = actions_view(out@);
            assert(first =~= seq![ActionView::SendLine { conn: client, line: raw_line(line@) }]);
            let is_watchlist = match member_str(msg, "type") {
                Some(t) => str_eq(t, "watchlist.response"),
                None => false,
            };
            if is_watchlist {
                if let Some(payload) = msg.get("payload") {
                    ctx.state.merge_watchlist_publish(payload);
                    ctx.broadcast_watchlist(&mut out);
                    return out;
                }
            }
            return out;
        }
    }
    let t = message_type(msg);
    if is_monitor_publish_type(t) {
        handle_message(ctx, publisher, msg)
    } else {
        let out: Vec<HubAction> = Vec::new();
        assert(actions_view(out@) =~= Seq::<ActionView>::empty());
        out
    }
}

/// Frames a received line and reads its envelope: nothing for a blank line
/// or one that is not JSON.
fn receive(line: &str) -> (r: Option<(String, JsonValue)>)
    ensures
        match r {
            Some(x) => received(line@) == Some((x.0@, x.1@)),
            None => received(line@) is None,
        },
{
    match frame_line(line) {
        None => None,
        Some(t) => match parse_json_line(t.as_str()) {
            None => None,
            Some(m) => Some((t, m)),
        },
    }
}

/// Handles a line received from a client that is not the Monitor publisher:
/// blank lines and lines that are not JSON are dropped; requests for Monitor
/// are forwarded as framed, anything else is handled as an envelope.
pub fn handle_client_line(ctx: &mut HubContext, conn: ConnId, line: &str) -> (out: Vec<HubAction>)
    ensures
        match received(line@) {
            None => final(ctx)@ == old(ctx)@ && out@.len() == 0,
            Some(r) => client_line_handled(old(ctx)@, conn, r.1, r.0, final(ctx)@, actions_view(out@)),
        },
        targets_distinct(out@),
{
    match receive(line) {
        None => Vec::new(),
        Some((t, m)) => client_message(ctx, conn, t.as_str(), &m),
    }
}

/// Handles a line received from the Monitor publisher: blank lines and lines
/// that are not JSON are dropped; replies go to the client that asked,
/// publications are handled, anything else is dropped.
pub fn handle_monitor_publisher_line(ctx: &mut HubContext, publisher: ConnId, line: &str) -> (out: Vec<HubAction>)
    ensures
        match received(line@) {
            None => final(ctx)@ == old(ctx)@ && out@.len() == 0,
            Some(r) => publisher_line_handled(old(ctx)@, publisher, r.1, r.0, final(ctx)@, actions_view(out@)),
        },
        targets_distinct(out@),
{
    match receive(line) {
        None => Vec::new(),
        Some((t, m)) => publisher_message(ctx, publisher, t.as_str(), &m),
    }
}

/// Handles a line received from `conn`, as the publisher's or as a client's
/// according to who `conn` is now.
pub fn handle_line(ctx: &mut HubContext, conn: ConnId, line: &str) -> (out: Vec<HubAction>)
    ensures
        match received(line@) {
            None => final(ctx)@ == old(ctx)@ && out@.len() == 0,
            Some(r) => line_handled(old(ctx)@, conn, r.1, r.0, final(ctx)@, actions_view(out@)),
        },
        targets_distinct(out@),
{
    if ctx.registry.monitor_publisher() == Some(conn) {
        handle_monitor_publisher_line(ctx, conn, line)
    } else {
        handle_client_line(ctx, conn, line)
    }
}

/// The bytes of an action's message on the wire: one JSON line for a
/// message, the line itself for a forwarded line.
pub fn wire_text(a: &HubAction) -> (r: String)
    ensures
        r@ == wire_of(action_view(*a)),
{
    match a {
        HubAction::Send { message, .. } => json_line(message),
        HubAction::SendLine { line, .. } => line.clone(),
        HubAction::Broadcast { message, .. } => json_line(message),
        HubAction::Status(_) => String::new(),
    }
}

impl HubContext {
    /// Forgets a connection that has gone (`remove_conn`).
    pub fn remove_conn(&mut self, conn: ConnId) -> (out: Vec<HubAction>)
        ensures
            conn_removed(old(self)@, conn, final(self)@, actions_view(out@)),
            targets_distinct(out@),
    {
        let was_monitor = self.registry.remove(conn);
        self.pending_by_request_id.retain_other_than(conn);
        assert(self@.pending =~= crate::protocol::pending_without(old(self)@.pending, conn));
        assert(self@ == (crate::protocol::ContextView {
            registry: crate::registry::without_conn(old(self)@.registry, conn),
            pending: crate::protocol::pending_without(old(self)@.pending, conn),
            ..old(self)@
        }));
        if was_monitor {
            self.on_monitor_publisher_disconnect()
        } else {
            let mut out: Vec<HubAction> = Vec::new();
            self.broadcast_admin_status(&mut out);
            assert(actions_view(out@).skip(0) =~= actions_view(out@));
            out
        }
    }
}

} // verus!
