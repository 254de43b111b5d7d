//! Properties of the hub that hold across its operations.
use vstd::prelude::*;
use crate::activity::{role_label, keep_last, is_stamp, stamped_all, status_texts, change_lines, has_key, client_key, MAX_LINES};
use crate::hub_state::{
    symbol_list, is_placeholder, clean_symbol, without_placeholders, HubStateView, merged_object,
    merged_watchlist, merged_vault, watchlist_json, vault_json,
};
use crate::json::{JsonView, jis_object, jget};
use crate::protocol::{
    ContextView, ActionView, client_line_handled, publisher_line_handled, is_forward_type,
    is_publish_type, msg_type, raw_line, handled, handled_type, payload_of, schema_of, id_ref_of,
    reply, or_empty, session_json, published_token, watchlist_update, topic_update, conn_removed,
    error_json,
};
use crate::registry::{ConnId, RegistryView, without_conn};
use crate::status::{ClientView, StatusView};
use crate::console::logged_change;
use crate::text::{trimmed, seq_contains};
use crate::tray::{connected_entries, joined, tooltip};
use crate::status::BridgeAppsStatus;
use crate::json::msg_id_of;
use crate::zones::{guilds_picks, pool_picks, labels_distinct, SlotView, monitor_picks, SessionView, is_active, exclusive_active, exclusive_session, exclusive_slot, active_before};

verus! {

/// A reply from Monitor goes back to the client that asked: when a client's
/// request with id `r` has been forwarded to the Monitor publisher, the
/// publisher's next line with id `r` is sent, as it is, to that client, and
/// the request no longer waits.
pub proof fn law_reply_returns_to_requester(
    c: ContextView,
    client: ConnId,
    request: JsonView,
    request_line: Seq<char>,
    c2: ContextView,
    out: Seq<ActionView>,
    response: JsonView,
    response_line: Seq<char>,
    c3: ContextView,
    out2: Seq<ActionView>,
    publisher: ConnId,
    r: Seq<char>,
)
    requires
        c.registry.publisher == Some(publisher),
        is_forward_type(msg_type(request)),
        msg_id_of(request) == Some(r),
        client_line_handled(c, client, request, request_line, c2, out),
        msg_id_of(response) == Some(r),
        publisher_line_handled(c2, publisher, response, response_line, c3, out2),
    ensures
        out == seq![ActionView::SendLine { conn: publisher, line: raw_line(request_line) }],
        out2.len() >= 1,
        out2[0] == (ActionView::SendLine { conn: client, line: raw_line(response_line) }),
        !c3.pending.contains_key(r),
{
    assert(c2.pending == c.pending.insert(r, client));
    assert(c2.pending.contains_key(r));
    assert(c2.pending[r] == client);
}

/// A request for Monitor is refused when no Monitor publisher is connected,
/// and nothing else changes.
pub proof fn law_forward_without_monitor(
    c: ContextView,
    client: ConnId,
    request: JsonView,
    line: Seq<char>,
    c2: ContextView,
    out: Seq<ActionView>,
)
    requires
        c.registry.publisher is None,
        is_forward_type(msg_type(request)),
        client_line_handled(c, client, request, line, c2, out),
    ensures
        c2 == c,
        out == seq![
            ActionView::Send {
                conn: client,
                message: error_json(msg_id_of(request), "monitor_unavailable"@, "Arcane Monitor is not connected"@),
            },
        ],
{
}

/// Anything but a JSON object is refused as an invalid envelope and changes
/// nothing; so is any schema but 1.
pub proof fn law_invalid_envelopes_change_nothing(
    c: ContextView,
    conn: ConnId,
    msg: JsonView,
    c2: ContextView,
    out: Seq<ActionView>,
)
    requires
        handled(c, conn, msg, c2, out),
        !jis_object(msg) || schema_of(msg) != Some(1int),
    ensures
        c2 == c,
        out.len() == 1,
{
}

/// What Caster publishes as its account is what a later request gets back.
pub proof fn law_caster_account_read_back(
    c: ContextView,
    publisher: ConnId,
    p: JsonView,
    idr: Option<Seq<char>>,
    c2: ContextView,
    out: Seq<ActionView>,
    reader: ConnId,
    idr2: Option<Seq<char>>,
    c3: ContextView,
    out2: Seq<ActionView>,
)
    requires
        jis_object(p),
        handled_type(c, publisher, "casterAccount.publish"@, p, idr, c2, out),
        handled_type(c2, reader, "casterAccount.request"@, JsonView::Null, idr2, c3, out2),
    ensures
        c2.state.caster_account == Some(p),
        out2 == seq![reply(reader, "casterAccount.response"@, idr2, p)],
{
    reveal_strlit("hello");
    reveal_strlit("monitor.register");
    reveal_strlit("session.request");
    reveal_strlit("session.publish");
    reveal_strlit("watchlist.publish");
    reveal_strlit("vault.publish");
    reveal_strlit("feedFocus.publish");
    reveal_strlit("casterAccount.publish");
    reveal_strlit("casterAccount.subscribe");
    reveal_strlit("casterAccount.request");
    assert("hello"@.len() == 5);
    assert("monitor.register"@.len() == 16);
    assert("session.request"@.len() == 15);
    assert("session.publish"@.len() == 15);
    assert("watchlist.publish"@.len() == 17);
    assert("vault.publish"@.len() == 13);
    assert("feedFocus.publish"@.len() == 17);
    assert("casterAccount.publish"@.len() == 21);
    assert("casterAccount.subscribe"@.len() == 23);
    assert("casterAccount.request"@.len() == 21);
    assert("casterAccount.request"@[14] != "casterAccount.publish"@[14]);
}

/// What Monitor publishes as its watchlist is, merged into what was kept,
/// what a later watchlist request gets back.
pub proof fn law_watchlist_read_back(
    c: ContextView,
    publisher: ConnId,
    p: JsonView,
    idr: Option<Seq<char>>,
    c2: ContextView,
    out: Seq<ActionView>,
    reader: ConnId,
    idr2: Option<Seq<char>>,
    c3: ContextView,
    out2: Seq<ActionView>,
)
    requires
        handled_type(c, publisher, "watchlist.publish"@, p, idr, c2, out),
        handled_type(c2, reader, "watchlist.request"@, JsonView::Null, idr2, c3, out2),
    ensures
        c2.state.watchlist == merged_watchlist(c.state.watchlist, p),
        out2 == seq![reply(reader, "watchlist.response"@, idr2, watchlist_json(merged_watchlist(c.state.watchlist, p)))],
{
    reveal_strlit("hello");
    reveal_strlit("monitor.register");
    reveal_strlit("session.request");
    reveal_strlit("session.publish");
    reveal_strlit("watchlist.publish");
    reveal_strlit("vault.publish");
    reveal_strlit("feedFocus.publish");
    reveal_strlit("casterAccount.publish");
    reveal_strlit("casterAccount.subscribe");
    reveal_strlit("casterAccount.request");
    reveal_strlit("casterJournal.publish");
    reveal_strlit("casterJournal.subscribe");
    reveal_strlit("casterJournal.request");
    reveal_strlit("casterTicket.notify");
    reveal_strlit("casterTicket.subscribe");
    reveal_strlit("casterBlowup.notify");
    reveal_strlit("casterBlowup.subscribe");
    reveal_strlit("guildsFeed.publish");
    reveal_strlit("guildsFeed.request");
    reveal_strlit("watchlist.subscribe");
    reveal_strlit("admin.subscribe");
    reveal_strlit("admin.request");
    reveal_strlit("watchlist.request");
    assert("hello"@.len() == 5);
    assert("monitor.register"@.len() == 16);
    assert("session.request"@.len() == 15);
    assert("session.publish"@.len() == 15);
    assert("watchlist.publish"@.len() == 17);
    assert("vault.publish"@.len() == 13);
    assert("feedFocus.publish"@.len() == 17);
    assert("casterAccount.publish"@.len() == 21);
    assert("casterAccount.subscribe"@.len() == 23);
    assert("casterAccount.request"@.len() == 21);
    assert("casterJournal.publish"@.len() == 21);
    assert("casterJournal.subscribe"@.len() == 23);
    assert("casterJournal.request"@.len() == 21);
    assert("casterTicket.notify"@.len() == 19);
    assert("casterTicket.subscribe"@.len() == 22);
    assert("casterBlowup.notify"@.len() == 19);
    assert("casterBlowup.subscribe"@.len() == 22);
    assert("guildsFeed.publish"@.len() == 18);
    assert("guildsFeed.request"@.len() == 18);
    assert("watchlist.subscribe"@.len() == 19);
    assert("admin.subscribe"@.len() == 15);
    assert("admin.request"@.len() == 13);
    assert("watchlist.request"@.len() == 17);
    assert("watchlist.request"@[10] != "watchlist.publish"@[10]);
    assert("watchlist.request"@[0] != "feedFocus.publish"@[0]);
}

/// What Monitor publishes as its vault is, merged into what was kept, what a
/// later vault request gets back.
pub proof fn law_vault_read_back(
    c: ContextView,
    publisher: ConnId,
    p: JsonView,
    idr: Option<Seq<char>>,
    c2: ContextView,
    out: Seq<ActionView>,
    reader: ConnId,
    idr2: Option<Seq<char>>,
    c3: ContextView,
    out2: Seq<ActionView>,
)
    requires
        handled_type(c, publisher, "vault.publish"@, p, idr, c2, out),
        handled_type(c2, reader, "vault.request"@, JsonView::Null, idr2, c3, out2),
    ensures
        c2.state.vault == merged_vault(c.state.vault, p),
        out2 == seq![reply(reader, "vault.response"@, idr2, vault_json(merged_vault(c.state.vault, p)))],
{
    reveal_strlit("hello");
    reveal_strlit("monitor.register");
    reveal_strlit("session.request");
    reveal_strlit("session.publish");
    reveal_strlit("watchlist.publish");
    reveal_strlit("vault.publish");
    reveal_strlit("feedFocus.publish");
    reveal_strlit("casterAccount.publish");
    reveal_strlit("casterAccount.subscribe");
    reveal_strlit("casterAccount.request");
    reveal_strlit("casterJournal.publish");
    reveal_strlit("casterJournal.subscribe");
    reveal_strlit("casterJournal.request");
    reveal_strlit("casterTicket.notify");
    reveal_strlit("casterTicket.subscribe");
    reveal_strlit("casterBlowup.notify");
    reveal_strlit("casterBlowup.subscribe");
    reveal_strlit("guildsFeed.publish");
    reveal_strlit("guildsFeed.request");
    reveal_strlit("watchlist.subscribe");
    reveal_strlit("admin.subscribe");
    reveal_strlit("admin.request");
    reveal_strlit("watchlist.request");
    reveal_strlit("vault.subscribe");
    reveal_strlit("vault.request");
    assert("hello"@.len() == 5);
    assert("monitor.register"@.len() == 16);
    assert("session.request"@.len() == 15);
    assert("session.publish"@.len() == 15);
    assert("watchlist.publish"@.len() == 17);
    assert("vault.publish"@.len() == 13);
    assert("feedFocus.publish"@.len() == 17);
    assert("casterAccount.publish"@.len() == 21);
    assert("casterAccount.subscribe"@.len() == 23);
    assert("casterAccount.request"@.len() == 21);
    assert("casterJournal.publish"@.len() == 21);
    assert("casterJournal.subscribe"@.len() == 23);
    assert("casterJournal.request"@.len() == 21);
    assert("casterTicket.notify"@.len() == 19);
    assert("casterTicket.subscribe"@.len() == 22);
    assert("casterBlowup.notify"@.len() == 19);
    assert("casterBlowup.subscribe"@.len() == 22);
    assert("guildsFeed.publish"@.len() == 18);
    assert("guildsFeed.request"@.len() == 18);
    assert("watchlist.subscribe"@.len() == 19);
    assert("admin.subscribe"@.len() == 15);
    assert("admin.request"@.len() == 13);
    assert("watchlist.request"@.len() == 17);
    assert("vault.subscribe"@.len() == 15);
    assert("vault.request"@.len() == 13);
    assert("vault.request"@[6] != "vault.publish"@[6]);
    assert("vault.request"@[0] != "admin.request"@[0]);
}

/// A non-blank session token that Monitor publishes is what a later session
/// request gets back (trimmed).
pub proof fn law_session_token_read_back(
    c: ContextView,
    publisher: ConnId,
    p: JsonView,
    idr: Option<Seq<char>>,
    c2: ContextView,
    out: Seq<ActionView>,
    reader: ConnId,
    idr2: Option<Seq<char>>,
    c3: ContextView,
    out2: Seq<ActionView>,
)
    requires
        published_token(p) is Some,
        handled_type(c, publisher, "session.publish"@, p, idr, c2, out),
        handled_type(c2, reader, "session.request"@, JsonView::Null, idr2, c3, out2),
    ensures
        out2 == seq![reply(reader, "session.response"@, idr2, session_json(published_token(p)))],
{
    reveal_strlit("hello");
    reveal_strlit("monitor.register");
    reveal_strlit("session.request");
    reveal_strlit("session.publish");
    assert("hello"@.len() == 5);
    assert("monitor.register"@.len() == 16);
    assert("session.request"@.len() == 15);
    assert("session.publish"@.len() == 15);
    assert("session.request"@[8] != "session.publish"@[8]);
    let t = published_token(p)->0;
    let raw = crate::json::jget_str(p, "token"@)->0;
    assert(t == trimmed(raw));
    lemma_trim_idempotent(t);
    assert(c2.state.monitor_token == published_token(p));
}

/// Trimming twice is trimming once.
pub proof fn lemma_trim_idempotent(s: Seq<char>)
    requires
        exists|u: Seq<char>| trimmed(u) == s,
    ensures
        trimmed(s) == s,
{
    let u = choose|u: Seq<char>| trimmed(u) == s;
    crate::text::lemma_trimmed_edges(u);
    crate::text::lemma_trim_clean(s);
}

/// A connection that has gone is in no topic, untagged, not the Monitor
/// publisher, and none of its forwarded requests still waits.
pub proof fn law_removed_connection_is_forgotten(c: ContextView, conn: ConnId, c2: ContextView, out: Seq<ActionView>)
    requires
        conn_removed(c, conn, c2, out),
    ensures
        !c2.registry.meta.contains_key(conn),
        !c2.registry.watchlist.contains(conn),
        !c2.registry.vault.contains(conn),
        !c2.registry.caster_account.contains(conn),
        !c2.registry.caster_journal.contains(conn),
        !c2.registry.caster_ticket.contains(conn),
        !c2.registry.caster_blowup.contains(conn),
        !c2.registry.admin.contains(conn),
        c2.registry.publisher != Some(conn),
        forall|k: Seq<char>| #[trigger] c2.pending.contains_key(k) ==> c2.pending[k] != conn,
{
}

/// The symbols of a published list are each a clean symbol and appear once.
pub proof fn law_symbol_list_clean(items: Seq<JsonView>)
    ensures
        symbol_list(items).no_duplicates(),
        forall|i: int| 0 <= i < symbol_list(items).len() ==> {
            let s = #[trigger] symbol_list(items)[i];
            s.len() > 0 && !is_placeholder(s)
        },
    decreases items.len(),
{
    if items.len() > 0 {
        law_symbol_list_clean(items.drop_last());
    }
}

/// The watchlist payload never lists a placeholder symbol.
pub proof fn law_no_placeholders_listed(s: Seq<Seq<char>>)
    ensures
        forall|i: int| 0 <= i < without_placeholders(s).len() ==> !is_placeholder(
            #[trigger] without_placeholders(s)[i],
        ),
    decreases s.len(),
{
    if s.len() > 0 {
        law_no_placeholders_listed(s.drop_last());
        let prev = without_placeholders(s.drop_last());
        assert forall|i: int| 0 <= i < without_placeholders(s).len() implies !is_placeholder(
            #[trigger] without_placeholders(s)[i],
        ) by {
            if i < prev.len() {
                assert(without_placeholders(s)[i] == prev[i]);
            }
        }
    }
}

/// The activity log keeps at most `MAX_LINES` lines, and the newest line last.
pub proof fn law_log_keeps_newest(lines: Seq<Seq<char>>, line: Seq<char>)
    ensures
        keep_last(lines.push(line)).len() <= MAX_LINES,
        keep_last(lines.push(line)).last() == line,
        lines.len() < MAX_LINES ==> keep_last(lines.push(line)) == lines.push(line),
{
}

proof fn lemma_change_lines_self(clients: Seq<ClientView>, all: Seq<ClientView>, what: Seq<char>)
    requires
        forall|i: int| 0 <= i < clients.len() ==> has_key(all, client_key(#[trigger] clients[i])),
    ensures
        change_lines(clients, all, what) == Seq::<Seq<char>>::empty(),
    decreases clients.len(),
{
    if clients.len() > 0 {
        assert forall|i: int| 0 <= i < clients.drop_last().len() implies has_key(all, client_key(#[trigger] clients.drop_last()[i])) by {
            assert(clients.drop_last()[i] == clients[i]);
        }
        lemma_change_lines_self(clients.drop_last(), all, what);
        assert(has_key(all, client_key(clients[clients.len() - 1])));
    }
}

/// A status that did not change adds nothing to the activity log.
pub proof fn law_unchanged_status_logs_nothing(s: StatusView)
    ensures
        status_texts(Some(s), s) == Seq::<Seq<char>>::empty(),
{
    assert forall|i: int| 0 <= i < s.clients.len() implies has_key(s.clients, client_key(#[trigger] s.clients[i])) by {
        assert(client_key(s.clients[i]) == client_key(s.clients[i]));
    }
    lemma_change_lines_self(s.clients, s.clients, " connected "@);
    lemma_change_lines_self(s.clients, s.clients, " disconnected "@);
    assert(status_texts(Some(s), s) =~= Seq::<Seq<char>>::empty());
}

/// Once a display takes the active trader pool, exactly one zone holds it,
/// on that display (the displays being keyed by label, which every zone
/// operation keeps so).
pub proof fn law_active_pool_is_exclusive(ss: Seq<SessionView>, current: Seq<char>, i1: int, j1: int, i2: int, j2: int)
    requires
        labels_distinct(ss),
        exclusive_active(ss, current).1,
        0 <= i1 < ss.len(),
        0 <= j1 < exclusive_active(ss, current).0[i1].zones.len(),
        is_active(exclusive_active(ss, current).0[i1].zones[j1]),
        0 <= i2 < ss.len(),
        0 <= j2 < exclusive_active(ss, current).0[i2].zones.len(),
        is_active(exclusive_active(ss, current).0[i2].zones[j2]),
    ensures
        i1 == i2,
        j1 == j2,
        ss[i1].label == current,
{
    let after = exclusive_active(ss, current).0;
    assert(after[i1] == exclusive_session(ss[i1], current));
    assert(after[i2] == exclusive_session(ss[i2], current));
    assert(after[i1].zones[j1] == exclusive_slot(ss[i1].label, current, ss[i1].zones, j1));
    assert(after[i2].zones[j2] == exclusive_slot(ss[i2].label, current, ss[i2].zones, j2));
    if i1 != i2 {
        assert(ss[i1].label != ss[i2].label);
    }
    if i1 == i2 && j1 != j2 {
        if j1 < j2 {
            assert(is_active(ss[i2].zones[j1]));
            assert(active_before(ss[i2].zones, j2));
        } else {
            assert(is_active(ss[i1].zones[j2]));
            assert(active_before(ss[i1].zones, j1));
        }
    }
}

/// A connection that subscribes to the watchlist is among those the next
/// watchlist update goes to.
pub proof fn law_subscriber_gets_watchlist_updates(
    c: ContextView,
    conn: ConnId,
    idr: Option<Seq<char>>,
    c2: ContextView,
    out: Seq<ActionView>,
)
    requires
        handled_type(c, conn, "watchlist.subscribe"@, JsonView::Null, idr, c2, out),
    ensures
        c2.registry.watchlist.contains(conn),
        watchlist_update(c2).len() == 1,
        watchlist_update(c2)[0] matches ActionView::Broadcast { conns, .. } && conns.contains(conn),
{
    reveal_strlit("hello");
    reveal_strlit("monitor.register");
    reveal_strlit("session.request");
    reveal_strlit("session.publish");
    reveal_strlit("watchlist.publish");
    reveal_strlit("vault.publish");
    reveal_strlit("feedFocus.publish");
    reveal_strlit("casterAccount.publish");
    reveal_strlit("casterAccount.subscribe");
    reveal_strlit("casterAccount.request");
    reveal_strlit("casterJournal.publish");
    reveal_strlit("casterJournal.subscribe");
    reveal_strlit("casterJournal.request");
    reveal_strlit("casterTicket.notify");
    reveal_strlit("casterTicket.subscribe");
    reveal_strlit("casterBlowup.notify");
    reveal_strlit("casterBlowup.subscribe");
    reveal_strlit("guildsFeed.publish");
    reveal_strlit("guildsFeed.request");
    reveal_strlit("watchlist.subscribe");
    assert("hello"@.len() == 5);
    assert("monitor.register"@.len() == 16);
    assert("session.request"@.len() == 15);
    assert("session.publish"@.len() == 15);
    assert("watchlist.publish"@.len() == 17);
    assert("vault.publish"@.len() == 13);
    assert("feedFocus.publish"@.len() == 17);
    assert("casterAccount.publish"@.len() == 21);
    assert("casterAccount.subscribe"@.len() == 23);
    assert("casterAccount.request"@.len() == 21);
    assert("casterJournal.publish"@.len() == 21);
    assert("casterJournal.subscribe"@.len() == 23);
    assert("casterJournal.request"@.len() == 21);
    assert("casterTicket.notify"@.len() == 19);
    assert("casterTicket.subscribe"@.len() == 22);
    assert("casterBlowup.notify"@.len() == 19);
    assert("casterBlowup.subscribe"@.len() == 22);
    assert("guildsFeed.publish"@.len() == 18);
    assert("guildsFeed.request"@.len() == 18);
    assert("watchlist.subscribe"@.len() == 19);
    assert("watchlist.subscribe"@[0] != "casterTicket.notify"@[0]);
    assert("watchlist.subscribe"@[0] != "casterBlowup.notify"@[0]);
    assert(!c2.registry.watchlist.is_empty()) by {
        assert(c2.registry.watchlist.contains(conn));
    }
}

/// Boot hydration places each Monitor view once: when the views already
/// placed are distinct, so are they after a display's picks, and every
/// picked zone is a Monitor zone whose view was not placed before.
pub proof fn law_hydration_places_each_view_once(zs: Seq<SlotView>, seen: Seq<Seq<char>>)
    requires
        seen.no_duplicates(),
    ensures
        monitor_picks(zs, seen).1.no_duplicates(),
        seen.is_prefix_of(monitor_picks(zs, seen).1),
        forall|k: int| 0 <= k < monitor_picks(zs, seen).0.len() ==> {
            let j = #[trigger] monitor_picks(zs, seen).0[k];
            &&& 0 <= j < zs.len()
            &&& zs[j].app_id == "monitor"@
            &&& zs[j].view_id is Some
            &&& !seen.contains(zs[j].view_id->0)
        },
    decreases zs.len(),
{
    if zs.len() > 0 {
        let prev = monitor_picks(zs.drop_last(), seen);
        law_hydration_places_each_view_once(zs.drop_last(), seen);
        let z = zs.last();
        assert forall|k: int| 0 <= k < prev.0.len() implies {
            let j = #[trigger] prev.0[k];
            &&& 0 <= j < zs.len()
            &&& zs[j].app_id == "monitor"@
            &&& zs[j].view_id is Some
            &&& !seen.contains(zs[j].view_id->0)
        } by {
            let j = prev.0[k];
            assert(zs.drop_last()[j] == zs[j]);
        }
        match z.view_id {
            Some(v) => {
                if z.app_id == "monitor"@ && !prev.1.contains(v) {
                    assert(seen.is_prefix_of(prev.1.push(v))) by {
                        assert(prev.1.push(v).subrange(0, seen.len() as int) =~= prev.1.subrange(0, seen.len() as int));
                    }
                    assert(!seen.contains(v)) by {
                        if seen.contains(v) {
                            let i = choose|i: int| 0 <= i < seen.len() && seen[i] == v;
                            assert(prev.1[i] == v);
                        }
                    }
                    let p = prev.0.push(zs.len() - 1);
                    assert forall|k: int| 0 <= k < p.len() implies {
                        let j = #[trigger] p[k];
                        &&& 0 <= j < zs.len()
                        &&& zs[j].app_id == "monitor"@
                        &&& zs[j].view_id is Some
                        &&& !seen.contains(zs[j].view_id->0)
                    } by {
                        if k < prev.0.len() {
                            assert(p[k] == prev.0[k]);
                        }
                    }
                }
            },
            None => {},
        }
    }
}

/// Keeping the last lines before adding more keeps the same last lines as
/// adding first.
pub proof fn lemma_keep_last_append(a: Seq<Seq<char>>, b: Seq<Seq<char>>)
    ensures
        keep_last(keep_last(a) + b) == keep_last(a + b),
{
    let n = MAX_LINES as int;
    if a.len() > n {
        let ka = a.skip(a.len() - n);
        assert(ka.len() == n);
        if b.len() == 0 {
            assert(ka + b =~= ka);
            assert(a + b =~= a);
        } else {
            assert(keep_last(ka + b) =~= keep_last(a + b)) by {
                let l = ka + b;
                let r = a + b;
                assert forall|i: int| 0 <= i < n implies #[trigger] l.skip(l.len() - n)[i] == r.skip(r.len() - n)[i] by {
                    let li = l.len() - n + i;
                    let ri = r.len() - n + i;
                    if li < n {
                        assert(l[li] == ka[li]);
                        assert(ri == a.len() - n + li);
                        assert(r[ri] == a[ri]);
                    } else {
                        assert(l[li] == b[li - n]);
                        assert(r[ri] == b[ri - a.len()]);
                    }
                }
            }
        }
    }
}

/// The activity log is a rolling window: a log that starts empty and to which
/// each call (`push`, `record_status`) adds lines, keeping the last
/// `MAX_LINES`, holds exactly the last `MAX_LINES` of all lines added, in the
/// order they were added. (Every `ActivityLog` also states this of itself:
/// its lines are `keep_last` of `appended`, which each call extends by
/// exactly the lines it adds.)
pub proof fn law_log_is_rolling_window(logs: Seq<Seq<Seq<char>>>, adds: Seq<Seq<Seq<char>>>)
    requires
        logs.len() == adds.len() + 1,
        logs[0] == Seq::<Seq<char>>::empty(),
        forall|i: int| 0 <= i < adds.len() ==> #[trigger] logs[i + 1] == keep_last(logs[i] + adds[i]),
    ensures
        logs.last() == keep_last(adds.flatten()),
        logs.last().len() <= MAX_LINES,
    decreases adds.len(),
{
    if adds.len() == 0 {
        assert(logs.last() == logs[0]);
    } else {
        let k = adds.len() - 1;
        law_log_is_rolling_window(logs.drop_last(), adds.drop_last());
        assert(logs.drop_last().last() == logs[k]);
        assert(logs[k + 1] == keep_last(logs[k] + adds[k]));
        lemma_keep_last_append(adds.drop_last().flatten(), adds[k]);
        adds.drop_last().lemma_flatten_push(adds[k]);
        assert(adds.drop_last().push(adds[k]) =~= adds);
    }
}

/// The same status logged twice adds nothing the second time: the log the
/// console keeps (at most `MAX_LINES` lines) is unchanged.
pub proof fn law_same_status_logs_nothing(log: Seq<Seq<char>>, s: StatusView, log2: Seq<Seq<char>>)
    requires
        log.len() <= MAX_LINES,
        logged_change(log, Some(s), s, log2),
    ensures
        log2 == log,
{
    law_unchanged_status_logs_nothing(s);
    let stamps = choose|stamps: Seq<Seq<char>>|
        {
            &&& stamps.len() == status_texts(Some(s), s).len()
            &&& forall|i: int| 0 <= i < stamps.len() ==> is_stamp(#[trigger] stamps[i])
            &&& log2 == keep_last(log + stamped_all(stamps, status_texts(Some(s), s)))
        };
    assert(stamped_all(stamps, status_texts(Some(s), s)) =~= Seq::<Seq<char>>::empty());
    assert(log + Seq::<Seq<char>>::empty() =~= log);
}

/// What Guilds publishes as its feed (an object) is what a later feed request
/// gets back.
pub proof fn law_guilds_feed_read_back(
    c: ContextView,
    publisher: ConnId,
    p: JsonView,
    idr: Option<Seq<char>>,
    c2: ContextView,
    out: Seq<ActionView>,
    reader: ConnId,
    idr2: Option<Seq<char>>,
    c3: ContextView,
    out2: Seq<ActionView>,
)
    requires
        jis_object(p),
        handled_type(c, publisher, "guildsFeed.publish"@, p, idr, c2, out),
        handled_type(c2, reader, "guildsFeed.request"@, JsonView::Null, idr2, c3, out2),
    ensures
        c2.state.guilds_feed == Some(p),
        out2 == seq![reply(reader, "guildsFeed.response"@, idr2, p)],
{
    reveal_strlit("hello");
    reveal_strlit("monitor.register");
    reveal_strlit("session.request");
    reveal_strlit("session.publish");
    reveal_strlit("watchlist.publish");
    reveal_strlit("vault.publish");
    reveal_strlit("feedFocus.publish");
    reveal_strlit("casterAccount.publish");
    reveal_strlit("casterAccount.subscribe");
    reveal_strlit("casterAccount.request");
    reveal_strlit("casterJournal.publish");
    reveal_strlit("casterJournal.subscribe");
    reveal_strlit("casterJournal.request");
    reveal_strlit("casterTicket.notify");
    reveal_strlit("casterTicket.subscribe");
    reveal_strlit("casterBlowup.notify");
    reveal_strlit("casterBlowup.subscribe");
    reveal_strlit("guildsFeed.publish");
    reveal_strlit("guildsFeed.request");
    assert("hello"@.len() == 5);
    assert("monitor.register"@.len() == 16);
    assert("session.request"@.len() == 15);
    assert("session.publish"@.len() == 15);
    assert("watchlist.publish"@.len() == 17);
    assert("vault.publish"@.len() == 13);
    assert("feedFocus.publish"@.len() == 17);
    assert("casterAccount.publish"@.len() == 21);
    assert("casterAccount.subscribe"@.len() == 23);
    assert("casterAccount.request"@.len() == 21);
    assert("casterJournal.publish"@.len() == 21);
    assert("casterJournal.subscribe"@.len() == 23);
    assert("casterJournal.request"@.len() == 21);
    assert("casterTicket.notify"@.len() == 19);
    assert("casterTicket.subscribe"@.len() == 22);
    assert("casterBlowup.notify"@.len() == 19);
    assert("casterBlowup.subscribe"@.len() == 22);
    assert("guildsFeed.publish"@.len() == 18);
    assert("guildsFeed.request"@.len() == 18);
    assert("guildsFeed.request"@[11] != "guildsFeed.publish"@[11]);
}

/// A watchlist publication that carries a focus or ticker member as a string
/// sets that part of the watchlist to the cleaned symbol (trimmed and
/// upper-cased, nothing when blank or a placeholder); a boolean
/// `activeHeroModeEnabled` sets the hero mode; and the next watchlist request
/// gets the watchlist as it then stands.
pub proof fn law_watchlist_members_replace(
    c: ContextView,
    publisher: ConnId,
    p: JsonView,
    idr: Option<Seq<char>>,
    c2: ContextView,
    out: Seq<ActionView>,
    reader: ConnId,
    idr2: Option<Seq<char>>,
    c3: ContextView,
    out2: Seq<ActionView>,
)
    requires
        jis_object(p),
        handled_type(c, publisher, "watchlist.publish"@, p, idr, c2, out),
        handled_type(c2, reader, "watchlist.request"@, JsonView::Null, idr2, c3, out2),
    ensures
        forall|s: Seq<char>| jget(p, "manualFocusSymbol"@) == Some(JsonView::Str(s))
            ==> c2.state.watchlist.manual_focus_symbol == clean_symbol(s),
        forall|s: Seq<char>| jget(p, "feedFocusSymbol"@) == Some(JsonView::Str(s))
            ==> c2.state.watchlist.feed_focus_symbol == clean_symbol(s),
        forall|s: Seq<char>| jget(p, "activeTicker"@) == Some(JsonView::Str(s))
            ==> c2.state.watchlist.active_ticker == clean_symbol(s),
        forall|b: bool| jget(p, "activeHeroModeEnabled"@) == Some(JsonView::Bool(b))
            ==> c2.state.watchlist.active_hero_mode_enabled == b,
        forall|items: Seq<JsonView>| jget(p, "symbols"@) == Some(JsonView::Array(items))
            ==> c2.state.watchlist.symbols == symbol_list(items),
        jget(p, "manualFocusSymbol"@) is None ==> c2.state.watchlist.manual_focus_symbol == c.state.watchlist.manual_focus_symbol,
        jget(p, "symbols"@) is None ==> c2.state.watchlist.symbols == c.state.watchlist.symbols,
        out2 == seq![reply(reader, "watchlist.response"@, idr2, watchlist_json(c2.state.watchlist))],
{
    law_watchlist_read_back(c, publisher, p, idr, c2, out, reader, idr2, c3, out2);
}

/// Every view placed so far is one placed before boot hydration began or the
/// view of a Monitor zone of the display.
proof fn lemma_placed_views_origin(zs: Seq<SlotView>, seen: Seq<Seq<char>>, x: Seq<char>)
    requires
        monitor_picks(zs, seen).1.contains(x),
    ensures
        seen.contains(x) || exists|k: int| 0 <= k < zs.len() && zs[k].app_id == "monitor"@ && #[trigger] zs[k].view_id == Some(x),
    decreases zs.len(),
{
    if zs.len() > 0 {
        let prev = monitor_picks(zs.drop_last(), seen);
        let z = zs.last();
        let last = zs.len() - 1;
        if prev.1.contains(x) {
            lemma_placed_views_origin(zs.drop_last(), seen, x);
            if !seen.contains(x) {
                let k = choose|k: int| 0 <= k < zs.drop_last().len() && zs.drop_last()[k].app_id == "monitor"@ && #[trigger] zs.drop_last()[k].view_id == Some(x);
                assert(zs[k] == zs.drop_last()[k]);
                assert(zs[k].view_id == Some(x));
            }
        } else {
            match z.view_id {
                Some(v) => {
                    if z.app_id == "monitor"@ && !prev.1.contains(v) {
                        let r = prev.1.push(v);
                        let i = choose|i: int| 0 <= i < r.len() && r[i] == x;
                        if i < prev.1.len() {
                            assert(prev.1[i] == x);
                        } else {
                            assert(zs[last].view_id == Some(x));
                        }
                    }
                },
                None => {},
            }
        }
    } else {
        assert(monitor_picks(zs, seen).1 == seen);
    }
}

/// Boot hydration places every Monitor view it can: each Monitor zone whose
/// view was neither placed before nor shown by an earlier Monitor zone of the
/// display is picked, and its view is then among those placed.
pub proof fn law_hydration_places_every_new_view(zs: Seq<SlotView>, seen: Seq<Seq<char>>, j: int)
    requires
        0 <= j < zs.len(),
        zs[j].app_id == "monitor"@,
        zs[j].view_id is Some,
        !seen.contains(zs[j].view_id->0),
        forall|k: int| 0 <= k < j && zs[k].app_id == "monitor"@ ==> #[trigger] zs[k].view_id != zs[j].view_id,
    ensures
        monitor_picks(zs, seen).0.contains(j),
        monitor_picks(zs, seen).1.contains(zs[j].view_id->0),
    decreases zs.len(),
{
    let v = zs[j].view_id->0;
    let prev = monitor_picks(zs.drop_last(), seen);
    let last = zs.len() - 1;
    if j == last {
        if prev.1.contains(v) {
            lemma_placed_views_origin(zs.drop_last(), seen, v);
            let k = choose|k: int| 0 <= k < zs.drop_last().len() && zs.drop_last()[k].app_id == "monitor"@ && #[trigger] zs.drop_last()[k].view_id == Some(v);
            assert(zs[k] == zs.drop_last()[k]);
            assert(zs[k].view_id != zs[j].view_id);
        }
        assert(monitor_picks(zs, seen).0 == prev.0.push(last));
        assert(prev.0.push(last)[prev.0.len() as int] == last);
        assert(prev.1.push(v)[prev.1.len() as int] == v);
    } else {
        assert forall|k: int| 0 <= k < j && zs.drop_last()[k].app_id == "monitor"@ implies #[trigger] zs.drop_last()[k].view_id != zs.drop_last()[j].view_id by {
            assert(zs.drop_last()[k] == zs[k]);
            assert(zs[k].view_id != zs[j].view_id);
        }
        assert(zs.drop_last()[j] == zs[j]);
        law_hydration_places_every_new_view(zs.drop_last(), seen, j);
        let i0 = choose|i: int| 0 <= i < prev.0.len() && prev.0[i] == j;
        let i1 = choose|i: int| 0 <= i < prev.1.len() && prev.1[i] == v;
        match zs.last().view_id {
            Some(w) => {
                if zs.last().app_id == "monitor"@ && !prev.1.contains(w) {
                    assert(prev.0.push(last)[i0] == j);
                    assert(prev.1.push(w)[i1] == v);
                }
            },
            None => {},
        }
    }
}

/// Every connected app, and only a connected app, has its entry in the tray
/// menu.
pub proof fn law_connected_apps_are_listed(apps: BridgeAppsStatus)
    ensures
        apps.monitor <==> connected_entries(apps).contains(("monitor"@, "Monitor"@)),
        apps.caster <==> connected_entries(apps).contains(("caster"@, "Caster"@)),
        apps.guilds <==> connected_entries(apps).contains(("guilds"@, "Guilds"@)),
{
    reveal_strlit("monitor");
    reveal_strlit("caster");
    reveal_strlit("guilds");
    assert("monitor"@.len() == 7);
    assert("caster"@.len() == 6);
    assert("guilds"@.len() == 6);
    assert("caster"@[0] != "guilds"@[0]);
    let m = ("monitor"@, "Monitor"@);
    let c = ("caster"@, "Caster"@);
    let g = ("guilds"@, "Guilds"@);
    assert(m != c && m != g && c != g);
    let e = connected_entries(apps);
    let e1 = if apps.monitor { seq![m] } else { Seq::<(Seq<char>, Seq<char>)>::empty() };
    let e2 = if apps.caster { e1.push(c) } else { e1 };
    assert(e == if apps.guilds { e2.push(g) } else { e2 });
    assert(forall|x| e1.contains(x) ==> x == m);
    assert(apps.monitor ==> e1[0] == m);
    assert(forall|x| e2.contains(x) ==> x == m || x == c) by {
        assert forall|x| e2.contains(x) implies x == m || x == c by {
            if apps.caster {
                let i = choose|i: int| 0 <= i < e2.len() && e2[i] == x;
                if i < e1.len() {
                    assert(e1.contains(e2[i]));
                }
            }
        }
    }
    assert(forall|x| e.contains(x) ==> x == m || x == c || x == g) by {
        assert forall|x| e.contains(x) implies x == m || x == c || x == g by {
            if apps.guilds {
                let i = choose|i: int| 0 <= i < e.len() && e[i] == x;
                if i < e2.len() {
                    assert(e2.contains(e[i]));
                }
            }
        }
    }
    if apps.monitor {
        assert(e2[0] == m);
        assert(e[0] == m);
    }
    if apps.caster {
        assert(e2[e1.len() as int] == c);
        assert(e[e1.len() as int] == c);
    }
    if apps.guilds {
        assert(e[e2.len() as int] == g);
    }
    if !apps.monitor && e.contains(m) {
        assert(!e1.contains(m));
        assert(!e2.contains(m)) by {
            if e2.contains(m) {
                let i = choose|i: int| 0 <= i < e2.len() && e2[i] == m;
                if i < e1.len() { assert(e1.contains(e2[i])); }
            }
        }
        let i = choose|i: int| 0 <= i < e.len() && e[i] == m;
        if i < e2.len() { assert(e2.contains(e[i])); }
    }
    if !apps.caster && e.contains(c) {
        let i = choose|i: int| 0 <= i < e.len() && e[i] == c;
        if i < e2.len() { assert(e2.contains(e[i])); assert(e1.contains(e2[i])); }
    }
    if !apps.guilds && e.contains(g) {
        assert(e2.contains(g));
    }
}

/// Labels joined with commas contain each label.
proof fn lemma_joined_contains(parts: Seq<Seq<char>>, i: int)
    requires
        0 <= i < parts.len(),
    ensures
        seq_contains(joined(parts), parts[i]),
    decreases parts.len(),
{
    let n = parts[i].len() as int;
    if parts.len() == 1 {
        assert(joined(parts).subrange(0int, 0int + parts[i].len()) =~= parts[i]);
    } else {
        let j = joined(parts.drop_last());
        let whole = j + ", "@ + parts.last();
        reveal_strlit(", ");
        assert(", "@.len() == 2);
        assert(joined(parts) == whole);
        if i == parts.len() - 1 {
            let w = j.len() as int + 2;
            assert(whole.subrange(w, w + parts[i].len()) =~= parts[i]);
        } else {
            assert(parts.drop_last()[i] == parts[i]);
            lemma_joined_contains(parts.drop_last(), i);
            let w = choose|w: int| 0 <= w && w + n <= j.len() && #[trigger] j.subrange(w, w + n) == parts[i];
            assert(whole.subrange(w, w + parts[i].len()) =~= j.subrange(w, w + n));
        }
    }
}

/// While the hub listens, the tray tooltip names every connected app, and
/// says it waits for apps only when none is connected.
pub proof fn law_tooltip_names_connected_apps(apps: BridgeAppsStatus)
    ensures
        apps.monitor ==> seq_contains(tooltip(true, apps), "Monitor"@),
        apps.caster ==> seq_contains(tooltip(true, apps), "Caster"@),
        apps.guilds ==> seq_contains(tooltip(true, apps), "Guilds"@),
        (tooltip(true, apps) == "Arcane Bridge — hub up, waiting for apps"@) <==> !(apps.monitor || apps.caster || apps.guilds),
{
    law_connected_apps_are_listed(apps);
    let e = connected_entries(apps);
    let parts = e.map_values(|x: (Seq<char>, Seq<char>)| x.1);
    let prefix = "Arcane Bridge — "@;
    reveal_strlit("Arcane Bridge — ");
    reveal_strlit("Arcane Bridge — hub up, waiting for apps");
    let waiting = "Arcane Bridge — hub up, waiting for apps"@;
    assert(forall|k: int| 0 <= k < e.len() ==> #[trigger] parts[k] == e[k].1);
    if apps.monitor || apps.caster || apps.guilds {
        assert(parts.len() > 0) by {
            if apps.monitor { assert(e.contains(("monitor"@, "Monitor"@))); }
            if apps.caster { assert(e.contains(("caster"@, "Caster"@))); }
            if apps.guilds { assert(e.contains(("guilds"@, "Guilds"@))); }
        }
        assert(tooltip(true, apps) == prefix + joined(parts));
        assert forall|k: int| 0 <= k < parts.len() implies seq_contains(tooltip(true, apps), #[trigger] parts[k]) by {
            lemma_joined_contains(parts, k);
            let n = parts[k].len() as int;
            let w = choose|w: int| 0 <= w && w + n <= joined(parts).len() && #[trigger] joined(parts).subrange(w, w + n) == parts[k];
            let t = prefix + joined(parts);
            let w2 = prefix.len() + w;
            assert(t.subrange(w2, w2 + parts[k].len()) =~= joined(parts).subrange(w, w + n));
        }
        if apps.monitor {
            let k = choose|k: int| 0 <= k < e.len() && e[k] == ("monitor"@, "Monitor"@);
            assert(parts[k] == "Monitor"@);
        }
        if apps.caster {
            let k = choose|k: int| 0 <= k < e.len() && e[k] == ("caster"@, "Caster"@);
            assert(parts[k] == "Caster"@);
        }
        if apps.guilds {
            let k = choose|k: int| 0 <= k < e.len() && e[k] == ("guilds"@, "Guilds"@);
            assert(parts[k] == "Guilds"@);
        }
        // the joined labels make the text differ from the waiting note
        assert(tooltip(true, apps) != waiting) by {
            let k = 0int;
            let lbl = parts[0];
            assert(e[0] == ("monitor"@, "Monitor"@) || e[0] == ("caster"@, "Caster"@) || e[0] == ("guilds"@, "Guilds"@)) by {
                assert(e.contains(e[0]));
            }
            reveal_strlit("Monitor");
            reveal_strlit("Caster");
            reveal_strlit("Guilds");
            let t = prefix + joined(parts);
            let pl = prefix.len() as int;
            if parts.len() == 1 {
                assert(joined(parts) == lbl);
            } else {
                lemma_joined_first(parts);
            }
            assert(t[pl] == lbl[0]);
            assert(waiting[pl] == 'h');
        }
    } else {
        assert(parts.len() == 0) by {
            if e.len() > 0 {
                assert(e.contains(e[0]));
            }
        }
    }
}

/// Labels joined with commas start with the first label.
proof fn lemma_joined_first(parts: Seq<Seq<char>>)
    requires
        parts.len() > 0,
        parts[0].len() > 0,
    ensures
        joined(parts).len() >= parts[0].len(),
        joined(parts)[0] == parts[0][0],
    decreases parts.len(),
{
    if parts.len() > 1 {
        assert(parts.drop_last()[0] == parts[0]);
        lemma_joined_first(parts.drop_last());
    }
}

/// A text with no colon (as every role name is).
pub open spec fn no_colon(s: Seq<char>) -> bool {
    forall|i: int| 0 <= i < s.len() ==> s[i] != ':'
}

/// Clients whose roles hold no colon have the same key exactly when they have
/// the same role and the same id.
pub proof fn law_client_keys_tell_clients_apart(a: ClientView, b: ClientView)
    requires
        no_colon(a.role),
        no_colon(b.role),
    ensures
        (client_key(a) == client_key(b)) <==> (a.role == b.role && a.id == b.id),
{
    let ka = client_key(a);
    let kb = client_key(b);
    if ka == kb {
        if a.role.len() < b.role.len() {
            assert(ka[a.role.len() as int] == ':');
            assert(kb[a.role.len() as int] == b.role[a.role.len() as int]);
        } else if b.role.len() < a.role.len() {
            assert(kb[b.role.len() as int] == ':');
            assert(ka[b.role.len() as int] == a.role[b.role.len() as int]);
        } else {
            assert(a.role =~= ka.subrange(0, a.role.len() as int));
            assert(b.role =~= kb.subrange(0, b.role.len() as int));
            assert(a.id =~= ka.subrange(a.role.len() as int + 1, ka.len() as int));
            assert(b.id =~= kb.subrange(b.role.len() as int + 1, kb.len() as int));
        }
    }
}

/// The line for a client that connected or disconnected.
proof fn lemma_change_lines_list(clients: Seq<ClientView>, others: Seq<ClientView>, what: Seq<char>, i: int)
    requires
        0 <= i < clients.len(),
        !has_key(others, client_key(clients[i])),
    ensures
        change_lines(clients, others, what).contains(
            role_label(clients[i].role) + what + seq!['('] + clients[i].id + seq![')'],
        ),
    decreases clients.len(),
{
    let prev = change_lines(clients.drop_last(), others, what);
    let line = role_label(clients[i].role) + what + seq!['('] + clients[i].id + seq![')'];
    if i == clients.len() - 1 {
        assert(change_lines(clients, others, what) == prev.push(line));
        assert(prev.push(line)[prev.len() as int] == line);
    } else {
        assert(clients.drop_last()[i] == clients[i]);
        lemma_change_lines_list(clients.drop_last(), others, what, i);
        let k = choose|k: int| 0 <= k < prev.len() && prev[k] == line;
        let c = clients.last();
        if !has_key(others, client_key(c)) {
            let c_line = role_label(c.role) + what + seq!['('] + c.id + seq![')'];
            assert(prev.push(c_line)[k] == line);
        }
    }
}

/// Every client that is new to a status (no client of the earlier status has
/// its role and id) gets a "connected" line, and every client that is gone
/// (no client of the new status has its role and id) a "disconnected" line,
/// when roles hold no colon.
pub proof fn law_client_changes_are_logged(prev: StatusView, next: StatusView)
    requires
        forall|k: int| 0 <= k < prev.clients.len() ==> no_colon(#[trigger] prev.clients[k].role),
        forall|k: int| 0 <= k < next.clients.len() ==> no_colon(#[trigger] next.clients[k].role),
    ensures
        forall|i: int| 0 <= i < next.clients.len()
            && (forall|k: int| 0 <= k < prev.clients.len() ==> !(#[trigger] prev.clients[k].role == next.clients[i].role
                && prev.clients[k].id == next.clients[i].id))
            ==> status_texts(Some(prev), next).contains(
                role_label(#[trigger] next.clients[i].role) + " connected "@ + seq!['('] + next.clients[i].id + seq![')'],
            ),
        forall|i: int| 0 <= i < prev.clients.len()
            && (forall|k: int| 0 <= k < next.clients.len() ==> !(#[trigger] next.clients[k].role == prev.clients[i].role
                && next.clients[k].id == prev.clients[i].id))
            ==> status_texts(Some(prev), next).contains(
                role_label(#[trigger] prev.clients[i].role) + " disconnected "@ + seq!['('] + prev.clients[i].id + seq![')'],
            ),
{
    let hub = if prev.listening != next.listening {
        if next.listening {
            seq![crate::activity::online_line(next)]
        } else {
            seq!["Hub offline — reconnecting…"@]
        }
    } else {
        Seq::empty()
    };
    let con = change_lines(next.clients, prev.clients, " connected "@);
    let dis = change_lines(prev.clients, next.clients, " disconnected "@);
    assert(status_texts(Some(prev), next) == hub + con + dis);
    assert forall|i: int| 0 <= i < next.clients.len()
        && (forall|k: int| 0 <= k < prev.clients.len() ==> !(#[trigger] prev.clients[k].role == next.clients[i].role
            && prev.clients[k].id == next.clients[i].id))
        implies status_texts(Some(prev), next).contains(
            role_label(#[trigger] next.clients[i].role) + " connected "@ + seq!['('] + next.clients[i].id + seq![')'],
        ) by {
        let c = next.clients[i];
        if has_key(prev.clients, client_key(c)) {
            let k = choose|k: int| 0 <= k < prev.clients.len() && client_key(#[trigger] prev.clients[k]) == client_key(c);
            law_client_keys_tell_clients_apart(prev.clients[k], c);
        }
        lemma_change_lines_list(next.clients, prev.clients, " connected "@, i);
        let line = role_label(c.role) + " connected "@ + seq!['('] + c.id + seq![')'];
        let j = choose|j: int| 0 <= j < con.len() && con[j] == line;
        assert((hub + con + dis)[hub.len() + j] == line);
    }
    assert forall|i: int| 0 <= i < prev.clients.len()
        && (forall|k: int| 0 <= k < next.clients.len() ==> !(#[trigger] next.clients[k].role == prev.clients[i].role
            && next.clients[k].id == prev.clients[i].id))
        implies status_texts(Some(prev), next).contains(
            role_label(#[trigger] prev.clients[i].role) + " disconnected "@ + seq!['('] + prev.clients[i].id + seq![')'],
        ) by {
        let c = prev.clients[i];
        if has_key(next.clients, client_key(c)) {
            let k = choose|k: int| 0 <= k < next.clients.len() && client_key(#[trigger] next.clients[k]) == client_key(c);
            law_client_keys_tell_clients_apart(next.clients[k], c);
        }
        lemma_change_lines_list(prev.clients, next.clients, " disconnected "@, i);
        let line = role_label(c.role) + " disconnected "@ + seq!['('] + c.id + seq![')'];
        let j = choose|j: int| 0 <= j < dis.len() && dis[j] == line;
        assert((hub + con + dis)[hub.len() + con.len() + j] == line);
    }
}

/// Whether the zone at `j` is picked, for one index.
proof fn lemma_guilds_pick_at(zs: Seq<SlotView>, j: int)
    requires
        0 <= j < zs.len(),
    ensures
        guilds_picks(zs).contains(j) <==> (zs[j].app_id == "guilds"@ && zs[j].view_id is Some && zs[j].view_id->0 != "sidebar"@),
    decreases zs.len(),
{
    let d = zs.drop_last();
    let prev = guilds_picks(d);
    let last = zs.len() - 1;
    let r = guilds_picks(zs);
    let q = zs[last].app_id == "guilds"@ && zs[last].view_id is Some && zs[last].view_id->0 != "sidebar"@;
    assert(q ==> r == prev.push(last));
    assert(!q ==> r == prev);
    lemma_picks_below(d);
    if j < last {
        assert(d[j] == zs[j]);
        lemma_guilds_pick_at(d, j);
        if prev.contains(j) && q {
            let i = choose|i: int| 0 <= i < prev.len() && prev[i] == j;
            assert(r[i] == j);
        }
        if r.contains(j) && q {
            let i = choose|i: int| 0 <= i < r.len() && r[i] == j;
            if i < prev.len() {
                assert(r[i] == prev[i]);
            }
        }
    } else {
        if q {
            assert(r[prev.len() as int] == last);
        } else if r.contains(j) {
            let i = choose|i: int| 0 <= i < r.len() && r[i] == j;
            assert(prev[i] < d.len());
        }
    }
}

/// The Guilds picks are indices of the display's zones, in increasing order.
proof fn lemma_picks_below(zs: Seq<SlotView>)
    ensures
        forall|a: int| 0 <= a < guilds_picks(zs).len() ==> 0 <= #[trigger] guilds_picks(zs)[a] < zs.len(),
        forall|a: int, b: int| 0 <= a < b < guilds_picks(zs).len() ==> #[trigger] guilds_picks(zs)[a] < #[trigger] guilds_picks(zs)[b],
    decreases zs.len(),
{
    if zs.len() > 0 {
        lemma_picks_below(zs.drop_last());
        let prev = guilds_picks(zs.drop_last());
        let r = guilds_picks(zs);
        let last = zs.len() - 1;
        let q = zs[last].app_id == "guilds"@ && zs[last].view_id is Some && zs[last].view_id->0 != "sidebar"@;
        assert(q ==> r == prev.push(last));
        assert(!q ==> r == prev);
        assert forall|a: int| 0 <= a < r.len() implies 0 <= #[trigger] r[a] < zs.len() by {
            if a < prev.len() {
                assert(r[a] == prev[a]);
            }
        }
        assert forall|a: int, b: int| 0 <= a < b < r.len() implies #[trigger] r[a] < #[trigger] r[b] by {
            assert(r[a] == prev[a]);
            if b < prev.len() {
                assert(r[b] == prev[b]);
            }
        }
    }
}

/// Boot hydration places exactly the Guilds zones that show a view other
/// than the sidebar, in display order.
pub proof fn law_guilds_hydration_picks(zs: Seq<SlotView>)
    ensures
        forall|j: int| 0 <= j < zs.len() ==> (guilds_picks(zs).contains(j) <==> (
            #[trigger] zs[j].app_id == "guilds"@ && zs[j].view_id is Some && zs[j].view_id->0 != "sidebar"@)),
        forall|a: int, b: int| 0 <= a < b < guilds_picks(zs).len() ==> #[trigger] guilds_picks(zs)[a] < #[trigger] guilds_picks(zs)[b],
        forall|a: int| 0 <= a < guilds_picks(zs).len() ==> 0 <= #[trigger] guilds_picks(zs)[a] < zs.len(),
{
    lemma_picks_below(zs);
    assert forall|j: int| 0 <= j < zs.len() implies (guilds_picks(zs).contains(j) <==> (
        #[trigger] zs[j].app_id == "guilds"@ && zs[j].view_id is Some && zs[j].view_id->0 != "sidebar"@)) by {
        lemma_guilds_pick_at(zs, j);
    }
}

/// Whether the zone at `j` is in the pool, for one index.
proof fn lemma_pool_pick_at(zs: Seq<SlotView>, pool: Seq<char>, j: int)
    requires
        0 <= j < zs.len(),
    ensures
        pool_picks(zs, pool).contains(j) <==> (zs[j].app_id == "monitor"@ && zs[j].trader_pool == Some(pool)),
    decreases zs.len(),
{
    let d = zs.drop_last();
    let prev = pool_picks(d, pool);
    let last = zs.len() - 1;
    let r = pool_picks(zs, pool);
    let q = zs[last].app_id == "monitor"@ && zs[last].trader_pool == Some(pool);
    assert(q ==> r == prev.push(last));
    assert(!q ==> r == prev);
    lemma_pool_below(d, pool);
    if j < last {
        assert(d[j] == zs[j]);
        lemma_pool_pick_at(d, pool, j);
        if prev.contains(j) && q {
            let i = choose|i: int| 0 <= i < prev.len() && prev[i] == j;
            assert(r[i] == j);
        }
        if r.contains(j) && q {
            let i = choose|i: int| 0 <= i < r.len() && r[i] == j;
            if i < prev.len() {
                assert(r[i] == prev[i]);
            }
        }
    } else {
        if q {
            assert(r[prev.len() as int] == last);
        } else if r.contains(j) {
            let i = choose|i: int| 0 <= i < r.len() && r[i] == j;
            assert(prev[i] < d.len());
        }
    }
}

/// The pool picks are indices of the display's zones, in increasing order.
proof fn lemma_pool_below(zs: Seq<SlotView>, pool: Seq<char>)
    ensures
        forall|a: int| 0 <= a < pool_picks(zs, pool).len() ==> 0 <= #[trigger] pool_picks(zs, pool)[a] < zs.len(),
        forall|a: int, b: int| 0 <= a < b < pool_picks(zs, pool).len() ==> #[trigger] pool_picks(zs, pool)[a] < #[trigger] pool_picks(zs, pool)[b],
    decreases zs.len(),
{
    if zs.len() > 0 {
        lemma_pool_below(zs.drop_last(), pool);
        let prev = pool_picks(zs.drop_last(), pool);
        let r = pool_picks(zs, pool);
        let last = zs.len() - 1;
        let q = zs[last].app_id == "monitor"@ && zs[last].trader_pool == Some(pool);
        assert(q ==> r == prev.push(last));
        assert(!q ==> r == prev);
        assert forall|a: int| 0 <= a < r.len() implies 0 <= #[trigger] r[a] < zs.len() by {
            if a < prev.len() {
                assert(r[a] == prev[a]);
            }
        }
        assert forall|a: int, b: int| 0 <= a < b < r.len() implies #[trigger] r[a] < #[trigger] r[b] by {
            assert(r[a] == prev[a]);
            if b < prev.len() {
                assert(r[b] == prev[b]);
            }
        }
    }
}

/// The zones in a trader pool are exactly the Monitor zones that hold it, in
/// display order.
pub proof fn law_pool_picks(zs: Seq<SlotView>, pool: Seq<char>)
    ensures
        forall|j: int| 0 <= j < zs.len() ==> (pool_picks(zs, pool).contains(j) <==> (
            #[trigger] zs[j].app_id == "monitor"@ && zs[j].trader_pool == Some(pool))),
        forall|a: int, b: int| 0 <= a < b < pool_picks(zs, pool).len() ==> #[trigger] pool_picks(zs, pool)[a] < #[trigger] pool_picks(zs, pool)[b],
        forall|a: int| 0 <= a < pool_picks(zs, pool).len() ==> 0 <= #[trigger] pool_picks(zs, pool)[a] < zs.len(),
{
    lemma_pool_below(zs, pool);
    assert forall|j: int| 0 <= j < zs.len() implies (pool_picks(zs, pool).contains(j) <==> (
        #[trigger] zs[j].app_id == "monitor"@ && zs[j].trader_pool == Some(pool))) by {
        lemma_pool_pick_at(zs, pool, j);
    }
}

/// What Caster publishes as its journal (an object) is what a later journal
/// request gets back.
pub proof fn law_caster_journal_read_back(
    c: ContextView,
    publisher: ConnId,
    p: JsonView,
    idr: Option<Seq<char>>,
    c2: ContextView,
    out: Seq<ActionView>,
    reader: ConnId,
    idr2: Option<Seq<char>>,
    c3: ContextView,
    out2: Seq<ActionView>,
)
    requires
        jis_object(p),
        handled_type(c, publisher, "casterJournal.publish"@, p, idr, c2, out),
        handled_type(c2, reader, "casterJournal.request"@, JsonView::Null, idr2, c3, out2),
    ensures
        c2.state.caster_journal == Some(p),
        out2 == seq![reply(reader, "casterJournal.response"@, idr2, p)],
{
    reveal_strlit("hello");
    reveal_strlit("monitor.register");
    reveal_strlit("session.request");
    reveal_strlit("session.publish");
    reveal_strlit("watchlist.publish");
    reveal_strlit("vault.publish");
    reveal_strlit("feedFocus.publish");
    reveal_strlit("casterAccount.publish");
    reveal_strlit("casterAccount.subscribe");
    reveal_strlit("casterAccount.request");
    reveal_strlit("casterJournal.publish");
    reveal_strlit("casterJournal.subscribe");
    reveal_strlit("casterJournal.request");
    assert("hello"@.len() == 5);
    assert("monitor.register"@.len() == 16);
    assert("session.request"@.len() == 15);
    assert("session.publish"@.len() == 15);
    assert("watchlist.publish"@.len() == 17);
    assert("vault.publish"@.len() == 13);
    assert("feedFocus.publish"@.len() == 17);
    assert("casterAccount.publish"@.len() == 21);
    assert("casterAccount.subscribe"@.len() == 23);
    assert("casterAccount.request"@.len() == 21);
    assert("casterJournal.publish"@.len() == 21);
    assert("casterJournal.subscribe"@.len() == 23);
    assert("casterJournal.request"@.len() == 21);
    assert("casterJournal.request"@[14] != "casterJournal.publish"@[14]);
    assert("casterJournal.request"@[6] != "casterAccount.request"@[6]);
    assert("casterJournal.publish"@[6] != "casterAccount.publish"@[6]);
    assert("casterJournal.publish"@[6] != "casterAccount.request"@[6]);
}

} // verus!
