//! Zone Mode's bookkeeping: which views and trader pools the zones on each
//! display are assigned, and which apps can be zoned.
use vstd::prelude::*;
use crate::text::{owned, str_eq, u64_text, decimal};

verus! {

/// The parts of a zone that assignments read and change (its geometry stays
/// with the overlay).
#[derive(Clone, Debug)]
pub struct ZoneSlot {
    pub id: String,
    pub app_id: String,
    pub view_id: Option<String>,
    pub view_label: Option<String>,
    pub trader_pool: Option<String>,
}

/// The zones of one display, by overlay label.
#[derive(Clone, Debug)]
pub struct ZoneSession {
    pub label: String,
    pub zones: Vec<ZoneSlot>,
}

pub struct SlotView {
    pub id: Seq<char>,
    pub app_id: Seq<char>,
    pub view_id: Option<Seq<char>>,
    pub view_label: Option<Seq<char>>,
    pub trader_pool: Option<Seq<char>>,
}

pub struct SessionView {
    pub label: Seq<char>,
    pub zones: Seq<SlotView>,
}

pub open spec fn ostr(o: Option<String>) -> Option<Seq<char>> {
    match o {
        Some(s) => Some(s@),
        None => None,
    }
}

impl View for ZoneSlot {
    type V = SlotView;

    open spec fn view(&self) -> SlotView {
        SlotView {
            id: self.id@,
            app_id: self.app_id@,
            view_id: ostr(self.view_id),
            view_label: ostr(self.view_label),
            trader_pool: ostr(self.trader_pool),
        }
    }
}

impl View for ZoneSession {
    type V = SessionView;

    open spec fn view(&self) -> SessionView {
        SessionView { label: self.label@, zones: self.zones@.map_values(|z: ZoneSlot| z@) }
    }
}

pub open spec fn sessions_view(s: Seq<ZoneSession>) -> Seq<SessionView> {
    s.map_values(|x: ZoneSession| x@)
}

/// The displays are told apart by their labels: no label occurs twice. The
/// displays are keyed by label, so the zone operations take only such lists
/// and keep them so.
pub open spec fn labels_distinct(ss: Seq<SessionView>) -> bool {
    forall|a: int, b: int| 0 <= a < ss.len() && 0 <= b < ss.len() && a != b ==> #[trigger] ss[a].label != #[trigger] ss[b].label
}

/// The app a zone shows when none is named.
pub fn default_app_id() -> (r: String)
    ensures
        r@ == "monitor"@,
{
    owned("monitor")
}

pub open spec fn is_active(z: SlotView) -> bool {
    z.trader_pool == Some("active"@)
}

/// The view ids assigned in a list of zones, in order.
pub open spec fn zone_view_ids(zs: Seq<SlotView>) -> Seq<Seq<char>>
    decreases zs.len(),
{
    if zs.len() == 0 {
        Seq::empty()
    } else {
        match zs.last().view_id {
            Some(v) => zone_view_ids(zs.drop_last()).push(v),
            None => zone_view_ids(zs.drop_last()),
        }
    }
}

/// The view ids assigned across displays, display by display.
pub open spec fn session_view_ids(ss: Seq<SessionView>) -> Seq<Seq<char>>
    decreases ss.len(),
{
    if ss.len() == 0 {
        Seq::empty()
    } else {
        session_view_ids(ss.drop_last()) + zone_view_ids(ss.last().zones)
    }
}

pub open spec fn any_active(ss: Seq<SessionView>) -> bool {
    exists|i: int, j: int| 0 <= i < ss.len() && 0 <= j < ss[i].zones.len() && #[trigger] is_active(ss[i].zones[j])
}

/// What counts as assigned: every zone's view id, and
/// the active trader pool when Monitor has claimed it or a zone holds it.
pub open spec fn assigned_ids(ss: Seq<SessionView>, monitor_claimed_active: bool) -> Seq<Seq<char>> {
    if monitor_claimed_active || any_active(ss) {
        session_view_ids(ss).push("__trader_active"@)
    } else {
        session_view_ids(ss)
    }
}

fn is_active_slot(z: &ZoneSlot) -> (r: bool)
    ensures
        r == is_active(z@),
{
    match &z.trader_pool {
        Some(p) => str_eq(p.as_str(), "active"),
        None => false,
    }
}

pub fn assigned_zone_ids(sessions: &Vec<ZoneSession>, monitor_claimed_active: bool) -> (r: Vec<String>)
    ensures
        r@.map_values(|s: String| s@) == assigned_ids(sessions_view(sessions@), monitor_claimed_active),
{
    let ghost ss = sessions_view(sessions@);
    let mut ids: Vec<String> = Vec::new();
    let mut has_active = false;
    let mut i: usize = 0;
    while i < sessions.len()
        invariant
            0 <= i <= sessions@.len(),
            ss == sessions_view(sessions@),
            ids@.map_values(|s: String| s@) == session_view_ids(ss.take(i as int)),
            has_active == exists|a: int, b: int| 0 <= a < i && 0 <= b < ss[a].zones.len() && #[trigger] is_active(ss[a].zones[b]),
        decreases sessions.len() - i,
    {
        let zones = &sessions[i].zones;
        let ghost zv = ss[i as int].zones;
        assert(zv == zones@.map_values(|z: ZoneSlot| z@));
        let ghost base = ids@.map_values(|s: String| s@);
        let mut j: usize = 0;
        assert(zv.take(0) =~= Seq::<SlotView>::empty());
        assert(ids@.map_values(|s: String| s@) =~= base + zone_view_ids(zv.take(0)));
        let ghost had = has_active;
        while j < zones.len()
            invariant
                0 <= j <= zones@.len(),
                zv == zones@.map_values(|z: ZoneSlot| z@),
                ids@.map_values(|s: String| s@) == base + zone_view_ids(zv.take(j as int)),
                has_active == (had || exists|b: int| 0 <= b < j && #[trigger] is_active(zv[b])),
            decreases zones.len() - j,
        {
            proof {
                let t = zv.take(j + 1);
                assert(t.drop_last() =~= zv.take(j as int));
                assert(t.last() == zones@[j as int]@);
            }
            if is_active_slot(&zones[j]) {
                has_active = true;
            }
            match &zones[j].view_id {
                Some(v) => {
                    let ghost before = ids@.map_values(|s: String| s@);
                    ids.push(v.clone());
                    assert(ids@.map_values(|s: String| s@) =~= before.push(v@));
                },
                None => {},
            }
            j = j + 1;
        }
        proof {
            assert(zv.take(zones@.len() as int) =~= zv);
            let t = ss.take(i + 1);
            assert(t.drop_last() =~= ss.take(i as int));
            assert(t.last() == ss[i as int]);
            assert(ids@.map_values(|s: String| s@) =~= session_view_ids(t));
            assert(has_active == exists|a: int, b: int| 0 <= a < i + 1 && 0 <= b < ss[a].zones.len() && #[trigger] is_active(ss[a].zones[b])) by {
                if has_active && !had {
                    let b = choose|b: int| 0 <= b < zones@.len() && #[trigger] is_active(zv[b]);
                    assert(is_active(ss[i as int].zones[b]));
                }
            }
        }
        i = i + 1;
    }
    assert(ss.take(sessions@.len() as int) =~= ss);
    if monitor_claimed_active || has_active {
        let ghost before = ids@.map_values(|s: String| s@);
        ids.push(owned("__trader_active"));
        assert(ids@.map_values(|s: String| s@) =~= before.push("__trader_active"@));
    }
    ids
}

pub open spec fn active_before(zs: Seq<SlotView>, j: int) -> bool {
    exists|k: int| 0 <= k < j && #[trigger] is_active(zs[k])
}

/// A zone after the active pool is made exclusive to `current`: an active
/// zone keeps the pool only when it is the first active zone of `current`.
pub open spec fn exclusive_slot(label: Seq<char>, current: Seq<char>, zs: Seq<SlotView>, j: int) -> SlotView {
    if is_active(zs[j]) && !(label == current && !active_before(zs, j)) {
        SlotView { trader_pool: None, ..zs[j] }
    } else {
        zs[j]
    }
}

pub open spec fn exclusive_session(s: SessionView, current: Seq<char>) -> SessionView {
    SessionView {
        label: s.label,
        zones: Seq::new(s.zones.len(), |j: int| exclusive_slot(s.label, current, s.zones, j)),
    }
}

pub open spec fn current_has_active(ss: Seq<SessionView>, current: Seq<char>) -> bool {
    exists|i: int, j: int| 0 <= i < ss.len() && ss[i].label == current && 0 <= j < ss[i].zones.len()
        && #[trigger] is_active(ss[i].zones[j])
}

/// The displays after `take_exclusive_active`, and its answer: when the
/// display `current` holds the active pool, every other zone loses it.
pub open spec fn exclusive_active(ss: Seq<SessionView>, current: Seq<char>) -> (Seq<SessionView>, bool) {
    if current_has_active(ss, current) {
        (Seq::new(ss.len(), |i: int| exclusive_session(ss[i], current)), true)
    } else {
        (ss, false)
    }
}

fn copy_slot(z: &ZoneSlot, drop_pool: bool) -> (r: ZoneSlot)
    ensures
        drop_pool ==> r@ == (SlotView { trader_pool: None, ..z@ }),
        !drop_pool ==> r@ == z@,
{
    ZoneSlot {
        id: z.id.clone(),
        app_id: z.app_id.clone(),
        view_id: match &z.view_id {
            Some(v) => Some(v.clone()),
            None => None,
        },
        view_label: match &z.view_label {
            Some(v) => Some(v.clone()),
            None => None,
        },
        trader_pool: if drop_pool {
            None
        } else {
            match &z.trader_pool {
                Some(v) => Some(v.clone()),
                None => None,
            }
        },
    }
}

fn has_active_in(sessions: &Vec<ZoneSession>, current: &str) -> (r: bool)
    ensures
        r == current_has_active(sessions_view(sessions@), current@),
{
    let ghost ss = sessions_view(sessions@);
    let mut i: usize = 0;
    while i < sessions.len()
        invariant
            0 <= i <= sessions@.len(),
            ss == sessions_view(sessions@),
            forall|a: int, b: int| 0 <= a < i && ss[a].label == current@ && 0 <= b < ss[a].zones.len()
                ==> !#[trigger] is_active(ss[a].zones[b]),
        decreases sessions.len() - i,
    {
        if str_eq(sessions[i].label.as_str(), current) {
            let zones = &sessions[i].zones;
            let mut j: usize = 0;
            while j < zones.len()
                invariant
                    0 <= j <= zones@.len(),
                    i < sessions@.len(),
                    ss == sessions_view(sessions@),
                    ss[i as int].zones == zones@.map_values(|z: ZoneSlot| z@),
                    ss[i as int].label == current@,
                    forall|b: int| 0 <= b < j ==> !#[trigger] is_active(ss[i as int].zones[b]),
                decreases zones.len() - j,
            {
                if is_active_slot(&zones[j]) {
                    assert(is_active(ss[i as int].zones[j as int]));
                    assert(current_has_active(ss, current@));
                    return true;
                }
                j = j + 1;
            }
        }
        i = i + 1;
    }
    false
}

/// Makes the active trader pool exclusive to the display `current_label`;
/// true when that display holds it.
pub fn take_exclusive_active(sessions: &mut Vec<ZoneSession>, current_label: &str) -> (r: bool)
    requires
        labels_distinct(sessions_view(old(sessions)@)),
    ensures
        (sessions_view(final(sessions)@), r) == exclusive_active(sessions_view(old(sessions)@), current_label@),
        labels_distinct(sessions_view(final(sessions)@)),
{
    let ghost ss = sessions_view(sessions@);
    if !has_active_in(sessions, current_label) {
        return false;
    }
    let mut result: Vec<ZoneSession> = Vec::new();
    let mut i: usize = 0;
    while i < sessions.len()
        invariant
            0 <= i <= sessions@.len(),
            ss == sessions_view(sessions@),
            result@.len() == i,
            forall|a: int| 0 <= a < i ==> #[trigger] result@[a]@ == exclusive_session(ss[a], current_label@),
        decreases sessions.len() - i,
    {
        let s = &sessions[i];
        let ghost zv = ss[i as int].zones;
        assert(zv == s.zones@.map_values(|z: ZoneSlot| z@));
        let is_current = str_eq(s.label.as_str(), current_label);
        let mut seen = false;
        let mut zones: Vec<ZoneSlot> = Vec::new();
        let mut j: usize = 0;
        while j < s.zones.len()
            invariant
                0 <= j <= s.zones@.len(),
                zv == s.zones@.map_values(|z: ZoneSlot| z@),
                is_current == (s.label@ == current_label@),
                is_current ==> seen == active_before(zv, j as int),
                !is_current ==> !seen,
                zones@.len() == j,
                forall|b: int| 0 <= b < j ==> #[trigger] zones@[b]@ == exclusive_slot(s.label@, current_label@, zv, b),
            decreases s.zones.len() - j,
        {
            let active = is_active_slot(&s.zones[j]);
            let drop_pool = active && (!is_current || seen);
            zones.push(copy_slot(&s.zones[j], drop_pool));
            proof {
                assert(zv[j as int] == s.zones@[j as int]@);
                assert(active_before(zv, j + 1) == (active_before(zv, j as int) || is_active(zv[j as int]))) by {
                    if is_active(zv[j as int]) {
                        assert(is_active(zv[j as int]));
                    }
                    if active_before(zv, j + 1) && !is_active(zv[j as int]) {
                        let k = choose|k: int| 0 <= k < j + 1 && #[trigger] is_active(zv[k]);
                        assert(k < j);
                    }
                }
            }
            if active && is_current && !seen {
                seen = true;
            }
            j = j + 1;
        }
        let session = ZoneSession { label: s.label.clone(), zones };
        assert(session@.zones =~= exclusive_session(ss[i as int], current_label@).zones);
        result.push(session);
        i = i + 1;
    }
    *sessions = result;
    assert(sessions_view(sessions@) =~= exclusive_active(ss, current_label@).0);
    true
}

/// A zone after `clear_trader_pool(pool)`.
pub open spec fn cleared_slot(z: SlotView, pool: Seq<char>) -> SlotView {
    if z.trader_pool == Some(pool) {
        SlotView { trader_pool: None, ..z }
    } else {
        z
    }
}

pub open spec fn holds_pool(ss: Seq<SessionView>, pool: Seq<char>) -> bool {
    exists|i: int, j: int| 0 <= i < ss.len() && 0 <= j < ss[i].zones.len() && #[trigger] ss[i].zones[j].trader_pool == Some(pool)
}

/// Takes the trader pool `pool` off every zone; true when
/// some zone held it.
pub fn clear_trader_pool(sessions: &mut Vec<ZoneSession>, pool: &str) -> (changed: bool)
    requires
        labels_distinct(sessions_view(old(sessions)@)),
    ensures
        sessions_view(final(sessions)@) == Seq::new(
            old(sessions)@.len(),
            |i: int| SessionView {
                label: sessions_view(old(sessions)@)[i].label,
                zones: sessions_view(old(sessions)@)[i].zones.map_values(|z: SlotView| cleared_slot(z, pool@)),
            },
        ),
        labels_distinct(sessions_view(final(sessions)@)),
        changed == holds_pool(sessions_view(old(sessions)@), pool@),
{
    let ghost ss = sessions_view(sessions@);
    let mut changed = false;
    let mut result: Vec<ZoneSession> = Vec::new();
    let mut i: usize = 0;
    while i < sessions.len()
        invariant
            0 <= i <= sessions@.len(),
            ss == sessions_view(sessions@),
            result@.len() == i,
            forall|a: int| 0 <= a < i ==> #[trigger] result@[a]@ == (SessionView {
                label: ss[a].label,
                zones: ss[a].zones.map_values(|z: SlotView| cleared_slot(z, pool@)),
            }),
            changed == exists|a: int, b: int| 0 <= a < i && 0 <= b < ss[a].zones.len() && #[trigger] ss[a].zones[b].trader_pool == Some(pool@),
        decreases sessions.len() - i,
    {
        let s = &sessions[i];
        let ghost zv = ss[i as int].zones;
        assert(zv == s.zones@.map_values(|z: ZoneSlot| z@));
        let ghost had = changed;
        let mut zones: Vec<ZoneSlot> = Vec::new();
        let mut j: usize = 0;
        while j < s.zones.len()
            invariant
                0 <= j <= s.zones@.len(),
                zv == s.zones@.map_values(|z: ZoneSlot| z@),
                zones@.len() == j,
                forall|b: int| 0 <= b < j ==> #[trigger] zones@[b]@ == cleared_slot(zv[b], pool@),
                changed == (had || exists|b: int| 0 <= b < j && #[trigger] zv[b].trader_pool == Some(pool@)),
            decreases s.zones.len() - j,
        {
            let holds = match &s.zones[j].trader_pool {
                Some(p) => str_eq(p.as_str(), pool),
                None => false,
            };
            assert(holds == (zv[j as int].trader_pool == Some(pool@)));
            if holds {
                changed = true;
            }
            zones.push(copy_slot(&s.zones[j], holds));
            j = j + 1;
        }
        let session = ZoneSession { label: s.label.clone(), zones };
        assert(session@.zones =~= zv.map_values(|z: SlotView| cleared_slot(z, pool@)));
        proof {
            assert(changed == exists|a: int, b: int| 0 <= a < i + 1 && 0 <= b < ss[a].zones.len() && #[trigger] ss[a].zones[b].trader_pool == Some(pool@)) by {
                if changed && !had {
                    let b = choose|b: int| 0 <= b < s.zones@.len() && #[trigger] zv[b].trader_pool == Some(pool@);
                    assert(ss[i as int].zones[b].trader_pool == Some(pool@));
                }
            }
        }
        result.push(session);
        i = i + 1;
    }
    *sessions = result;
    assert(sessions_view(sessions@) =~= Seq::new(
        old(sessions)@.len(),
        |i: int| SessionView {
            label: ss[i].label,
            zones: ss[i].zones.map_values(|z: SlotView| cleared_slot(z, pool@)),
        },
    ));
    changed
}

/// A view that an app offers for zoning.
#[derive(Clone, Debug)]
pub struct MonitorView {
    pub id: String,
    pub label: String,
}

/// An app that can be zoned, with its views.
#[derive(Clone, Debug)]
pub struct ZoneApp {
    pub id: String,
    pub label: String,
    pub views: Vec<MonitorView>,
}

pub open spec fn pair_view(v: MonitorView) -> (Seq<char>, Seq<char>) {
    (v.id@, v.label@)
}

pub struct ZoneAppView {
    pub id: Seq<char>,
    pub label: Seq<char>,
    pub views: Seq<(Seq<char>, Seq<char>)>,
}

pub open spec fn zone_app_view(a: ZoneApp) -> ZoneAppView {
    ZoneAppView { id: a.id@, label: a.label@, views: a.views@.map_values(|v: MonitorView| pair_view(v)) }
}

/// The views Guilds offers for zoning.
pub open spec fn guilds_views() -> Seq<(Seq<char>, Seq<char>)> {
    seq![("chat"@, "Chat"@), ("header"@, "Header"@), ("toplist"@, "Focus & Watchlist"@)]
}

/// The apps that can be zoned: Monitor with the views it
/// publishes when it is connected, then Guilds with its fixed views when it is.
pub open spec fn zone_apps_of(monitor_views: Seq<(Seq<char>, Seq<char>)>, monitor_connected: bool, guilds_connected: bool) -> Seq<ZoneAppView> {
    let m = if monitor_connected {
        seq![ZoneAppView { id: "monitor"@, label: "Arcane Monitor"@, views: monitor_views }]
    } else {
        Seq::empty()
    };
    if guilds_connected {
        m.push(ZoneAppView { id: "guilds"@, label: "Arcane Guilds"@, views: guilds_views() })
    } else {
        m
    }
}

fn view_entry(id: &str, label: &str) -> (r: MonitorView)
    ensures
        pair_view(r) == (id@, label@),
{
    MonitorView { id: owned(id), label: owned(label) }
}

pub fn zone_apps(monitor_views: Vec<MonitorView>, monitor_connected: bool, guilds_connected: bool) -> (r: Vec<ZoneApp>)
    ensures
        r@.map_values(|a: ZoneApp| zone_app_view(a)) == zone_apps_of(
            monitor_views@.map_values(|v: MonitorView| pair_view(v)),
            monitor_connected,
            guilds_connected,
        ),
{
    let ghost mv = monitor_views@.map_values(|v: MonitorView| pair_view(v));
    let mut apps: Vec<ZoneApp> = Vec::new();
    if monitor_connected {
        apps.push(ZoneApp { id: owned("monitor"), label: owned("Arcane Monitor"), views: monitor_views });
    }
    let ghost first = apps@.map_values(|a: ZoneApp| zone_app_view(a));
    assert(first =~= zone_apps_of(mv, monitor_connected, false));
    if guilds_connected {
        let views = vec![
            view_entry("chat", "Chat"),
            view_entry("header", "Header"),
            view_entry("toplist", "Focus & Watchlist"),
        ];
        assert(views@.map_values(|v: MonitorView| pair_view(v)) =~= guilds_views());
        apps.push(ZoneApp { id: owned("guilds"), label: owned("Arcane Guilds"), views });
        assert(apps@.map_values(|a: ZoneApp| zone_app_view(a)) =~= zone_apps_of(mv, monitor_connected, guilds_connected));
    }
    apps
}

/// Whether a zone shows the view `view_id` of the app `app_id`.
pub open spec fn shows_view(z: SlotView, app_id: Seq<char>, view_id: Seq<char>) -> bool {
    z.app_id == app_id && z.view_id == Some(view_id)
}

/// A zone after the view is taken off it: no view id and no view label.
pub open spec fn unassigned_slot(z: SlotView, app_id: Seq<char>, view_id: Seq<char>) -> SlotView {
    if shows_view(z, app_id, view_id) {
        SlotView { view_id: None, view_label: None, ..z }
    } else {
        z
    }
}

pub open spec fn shows_anywhere(ss: Seq<SessionView>, app_id: Seq<char>, view_id: Seq<char>) -> bool {
    exists|i: int, j: int| 0 <= i < ss.len() && 0 <= j < ss[i].zones.len() && #[trigger] shows_view(ss[i].zones[j], app_id, view_id)
}

fn slot_shows(z: &ZoneSlot, app_id: &str, view_id: &str) -> (r: bool)
    ensures
        r == shows_view(z@, app_id@, view_id@),
{
    str_eq(z.app_id.as_str(), app_id) && match &z.view_id {
        Some(v) => str_eq(v.as_str(), view_id),
        None => false,
    }
}

fn unassigned_copy(z: &ZoneSlot, clear: bool) -> (r: ZoneSlot)
    ensures
        clear ==> r@ == (SlotView { view_id: None, view_label: None, ..z@ }),
        !clear ==> r@ == z@,
{
    let c = copy_slot(z, false);
    if clear {
        ZoneSlot { id: c.id, app_id: c.app_id, view_id: None, view_label: None, trader_pool: c.trader_pool }
    } else {
        c
    }
}

/// Takes the view `view_id` of the app `app_id` off every zone; true when
/// some zone showed it.
pub fn unassign_view_in(sessions: &mut Vec<ZoneSession>, app_id: &str, view_id: &str) -> (changed: bool)
    requires
        labels_distinct(sessions_view(old(sessions)@)),
    ensures
        sessions_view(final(sessions)@) == Seq::new(
            old(sessions)@.len(),
            |i: int| SessionView {
                label: sessions_view(old(sessions)@)[i].label,
                zones: sessions_view(old(sessions)@)[i].zones.map_values(|z: SlotView| unassigned_slot(z, app_id@, view_id@)),
            },
        ),
        changed == shows_anywhere(sessions_view(old(sessions)@), app_id@, view_id@),
        labels_distinct(sessions_view(final(sessions)@)),
{
    let ghost ss = sessions_view(sessions@);
    let mut changed = false;
    let mut result: Vec<ZoneSession> = Vec::new();
    let mut i: usize = 0;
    while i < sessions.len()
        invariant
            0 <= i <= sessions@.len(),
            ss == sessions_view(sessions@),
            result@.len() == i,
            forall|a: int| 0 <= a < i ==> #[trigger] result@[a]@ == (SessionView {
                label: ss[a].label,
                zones: ss[a].zones.map_values(|z: SlotView| unassigned_slot(z, app_id@, view_id@)),
            }),
            changed == exists|a: int, b: int| 0 <= a < i && 0 <= b < ss[a].zones.len() && #[trigger] shows_view(ss[a].zones[b], app_id@, view_id@),
        decreases sessions.len() - i,
    {
        let s = &sessions[i];
        let ghost zv = ss[i as int].zones;
        assert(zv == s.zones@.map_values(|z: ZoneSlot| z@));
        let ghost had = changed;
        let mut zones: Vec<ZoneSlot> = Vec::new();
        let mut j: usize = 0;
        while j < s.zones.len()
            invariant
                0 <= j <= s.zones@.len(),
                zv == s.zones@.map_values(|z: ZoneSlot| z@),
                zones@.len() == j,
                forall|b: int| 0 <= b < j ==> #[trigger] zones@[b]@ == unassigned_slot(zv[b], app_id@, view_id@),
                changed == (had || exists|b: int| 0 <= b < j && #[trigger] shows_view(zv[b], app_id@, view_id@)),
            decreases s.zones.len() - j,
        {
            let shows = slot_shows(&s.zones[j], app_id, view_id);
            assert(zv[j as int] == s.zones@[j as int]@);
            if shows {
                changed = true;
            }
            zones.push(unassigned_copy(&s.zones[j], shows));
            j = j + 1;
        }
        let session = ZoneSession { label: s.label.clone(), zones };
        assert(session@.zones =~= zv.map_values(|z: SlotView| unassigned_slot(z, app_id@, view_id@)));
        proof {
            assert(changed == exists|a: int, b: int| 0 <= a < i + 1 && 0 <= b < ss[a].zones.len() && #[trigger] shows_view(ss[a].zones[b], app_id@, view_id@)) by {
                if changed && !had {
                    let b = choose|b: int| 0 <= b < s.zones@.len() && #[trigger] shows_view(zv[b], app_id@, view_id@);
                    assert(shows_view(ss[i as int].zones[b], app_id@, view_id@));
                }
            }
        }
        result.push(session);
        i = i + 1;
    }
    *sessions = result;
    assert(sessions_view(sessions@) =~= Seq::new(
        old(sessions)@.len(),
        |i: int| SessionView {
            label: ss[i].label,
            zones: ss[i].zones.map_values(|z: SlotView| unassigned_slot(z, app_id@, view_id@)),
        },
    ));
    changed
}

/// Window changes that a placement in progress may cause, and that are not
/// taken as the user closing a zoned view.
pub open spec fn is_transient(cause: Seq<char>) -> bool {
    cause == "closed"@ || cause == "docked"@ || cause == "moved"@ || cause == "resized"@
}

pub fn is_transient_cause(cause: &str) -> (r: bool)
    ensures
        r == is_transient(cause@),
{
    str_eq(cause, "closed") || str_eq(cause, "docked") || str_eq(cause, "moved") || str_eq(cause, "resized")
}

/// Whether a view may be placed in a zone: the navigation sidebar may not.
pub fn check_zone_placement(view_id: &str) -> (r: Result<(), String>)
    ensures
        r is Err <==> view_id@ == "sidebar"@,
        r matches Err(e) ==> e@ == "Navigation cannot be zoned"@,
{
    if str_eq(view_id, "sidebar") {
        Err(owned("Navigation cannot be zoned"))
    } else {
        Ok(())
    }
}

/// The Monitor zones of one display that boot hydration places, by index:
/// each zone of the Monitor app that shows a view not placed before (the
/// views in `seen`, then those picked earlier), with the views placed after.
pub open spec fn monitor_picks(zs: Seq<SlotView>, seen: Seq<Seq<char>>) -> (Seq<int>, Seq<Seq<char>>)
    decreases zs.len(),
{
    if zs.len() == 0 {
        (Seq::empty(), seen)
    } else {
        let prev = monitor_picks(zs.drop_last(), seen);
        let z = zs.last();
        match z.view_id {
            Some(v) => if z.app_id == "monitor"@ && !prev.1.contains(v) {
                (prev.0.push(zs.len() - 1), prev.1.push(v))
            } else {
                prev
            },
            None => prev,
        }
    }
}

/// The Guilds zones of one display that boot hydration places, by index:
/// each zone of the Guilds app that shows a view other than the sidebar.
pub open spec fn guilds_picks(zs: Seq<SlotView>) -> Seq<int>
    decreases zs.len(),
{
    if zs.len() == 0 {
        Seq::empty()
    } else {
        let prev = guilds_picks(zs.drop_last());
        let z = zs.last();
        match z.view_id {
            Some(v) => if z.app_id == "guilds"@ && v != "sidebar"@ {
                prev.push(zs.len() - 1)
            } else {
                prev
            },
            None => prev,
        }
    }
}

pub open spec fn slots_view(zs: Seq<ZoneSlot>) -> Seq<SlotView> {
    zs.map_values(|z: ZoneSlot| z@)
}

pub open spec fn strings_view(v: Seq<String>) -> Seq<Seq<char>> {
    v.map_values(|s: String| s@)
}

pub open spec fn indices_view(v: Seq<usize>) -> Seq<int> {
    v.map_values(|j: usize| j as int)
}

fn strings_contain(v: &Vec<String>, s: &str) -> (r: bool)
    ensures
        r == strings_view(v@).contains(s@),
{
    let mut i: usize = 0;
    while i < v.len()
        invariant
            0 <= i <= v@.len(),
            forall|k: int| 0 <= k < i ==> #[trigger] v@[k]@ != s@,
        decreases v.len() - i,
    {
        if str_eq(v[i].as_str(), s) {
            assert(strings_view(v@)[i as int] == s@);
            return true;
        }
        i = i + 1;
    }
    assert forall|k: int| 0 <= k < strings_view(v@).len() implies #[trigger] strings_view(v@)[k] != s@ by {
        assert(strings_view(v@)[k] == v@[k]@);
    }
    false
}

/// Which Monitor zones of one display boot hydration places, adding their views to `seen`; called for each connected display
/// in turn with the same `seen`.
pub fn pick_monitor_hydration(zones: &Vec<ZoneSlot>, seen: &mut Vec<String>) -> (r: Vec<usize>)
    ensures
        indices_view(r@) == monitor_picks(slots_view(zones@), strings_view(old(seen)@)).0,
        strings_view(final(seen)@) == monitor_picks(slots_view(zones@), strings_view(old(seen)@)).1,
{
    let ghost zv = slots_view(zones@);
    let ghost seen0 = strings_view(seen@);
    let mut picks: Vec<usize> = Vec::new();
    let mut j: usize = 0;
    while j < zones.len()
        invariant
            0 <= j <= zones@.len(),
            zv == slots_view(zones@),
            indices_view(picks@) == monitor_picks(zv.take(j as int), seen0).0,
            strings_view(seen@) == monitor_picks(zv.take(j as int), seen0).1,
        decreases zones.len() - j,
    {
        assert(zv.take(j as int + 1).drop_last() =~= zv.take(j as int));
        assert(zv.take(j as int + 1).last() == zones@[j as int]@);
        let z = &zones[j];
        match &z.view_id {
            Some(v) => {
                if str_eq(z.app_id.as_str(), "monitor") && !strings_contain(seen, v.as_str()) {
                    picks.push(j);
                    seen.push(v.clone());
                    assert(indices_view(picks@) =~= monitor_picks(zv.take(j as int + 1), seen0).0);
                    assert(strings_view(seen@) =~= monitor_picks(zv.take(j as int + 1), seen0).1);
                }
            },
            None => {},
        }
        j = j + 1;
    }
    assert(zv.take(zones@.len() as int) =~= zv);
    picks
}

/// Which Guilds zones of one display boot hydration places.
pub fn pick_guilds_hydration(zones: &Vec<ZoneSlot>) -> (r: Vec<usize>)
    ensures
        indices_view(r@) == guilds_picks(slots_view(zones@)),
{
    let ghost zv = slots_view(zones@);
    let mut picks: Vec<usize> = Vec::new();
    let mut j: usize = 0;
    while j < zones.len()
        invariant
            0 <= j <= zones@.len(),
            zv == slots_view(zones@),
            indices_view(picks@) == guilds_picks(zv.take(j as int)),
        decreases zones.len() - j,
    {
        assert(zv.take(j as int + 1).drop_last() =~= zv.take(j as int));
        assert(zv.take(j as int + 1).last() == zones@[j as int]@);
        let z = &zones[j];
        match &z.view_id {
            Some(v) => {
                if str_eq(z.app_id.as_str(), "guilds") && !str_eq(v.as_str(), "sidebar") {
                    picks.push(j);
                    assert(indices_view(picks@) =~= guilds_picks(zv.take(j as int + 1)));
                }
            },
            None => {},
        }
        j = j + 1;
    }
    assert(zv.take(zones@.len() as int) =~= zv);
    picks
}

/// The request id of the `count`-th Guilds placement on boot.
pub fn guilds_hydrate_request_id(view_id: &str, count: u64) -> (r: String)
    ensures
        r@ == "guilds-zone-hydrate-"@ + view_id@ + "-"@ + decimal(count as nat),
{
    let mut s = owned("guilds-zone-hydrate-");
    s.append(view_id);
    s.append("-");
    let n = u64_text(count);
    s.append(n.as_str());
    s
}

/// The request id of a Monitor hydration made at `millis` since the epoch.
pub fn monitor_hydrate_request_id(millis: u64) -> (r: String)
    ensures
        r@ == "zone-hydrate-"@ + decimal(millis as nat),
{
    let mut s = owned("zone-hydrate-");
    let n = u64_text(millis);
    s.append(n.as_str());
    s
}

/// The Monitor zones of one display in the trader pool `pool`, by index.
pub open spec fn pool_picks(zs: Seq<SlotView>, pool: Seq<char>) -> Seq<int>
    decreases zs.len(),
{
    if zs.len() == 0 {
        Seq::empty()
    } else {
        let prev = pool_picks(zs.drop_last(), pool);
        let z = zs.last();
        if z.app_id == "monitor"@ && z.trader_pool == Some(pool) {
            prev.push(zs.len() - 1)
        } else {
            prev
        }
    }
}

/// Which Monitor zones of one display hold the trader pool `pool`
/// for the trader pool payload.
pub fn pick_pool_zones(zones: &Vec<ZoneSlot>, pool: &str) -> (r: Vec<usize>)
    ensures
        indices_view(r@) == pool_picks(slots_view(zones@), pool@),
{
    let ghost zv = slots_view(zones@);
    let mut picks: Vec<usize> = Vec::new();
    let mut j: usize = 0;
    while j < zones.len()
        invariant
            0 <= j <= zones@.len(),
            zv == slots_view(zones@),
            indices_view(picks@) == pool_picks(zv.take(j as int), pool@),
        decreases zones.len() - j,
    {
        assert(zv.take(j as int + 1).drop_last() =~= zv.take(j as int));
        assert(zv.take(j as int + 1).last() == zones@[j as int]@);
        let z = &zones[j];
        let in_pool = match &z.trader_pool {
            Some(t) => str_eq(t.as_str(), pool),
            None => false,
        };
        if str_eq(z.app_id.as_str(), "monitor") && in_pool {
            picks.push(j);
            assert(indices_view(picks@) =~= pool_picks(zv.take(j as int + 1), pool@));
        }
        j = j + 1;
    }
    assert(zv.take(zones@.len() as int) =~= zv);
    picks
}

/// A zone's id in a trader pool payload: the display's layout key, a colon,
/// then the zone's own id.
pub fn pool_zone_id(layout_key: &str, zone_id: &str) -> (r: String)
    ensures
        r@ == layout_key@ + ":"@ + zone_id@,
{
    let mut s = owned(layout_key);
    s.append(":");
    s.append(zone_id);
    s
}

} // verus!
