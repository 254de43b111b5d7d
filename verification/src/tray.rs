//! What the tray shows: the title line, the connected apps in its menu and
//! its tooltip.
use vstd::prelude::*;
use crate::status::{BridgeAppsStatus, BridgeStatus};
use crate::text::owned;

verus! {

/// The menu's title line: the app name, two spaces, then `v` and the version.
pub open spec fn title_line(name: Seq<char>, version: Seq<char>) -> Seq<char> {
    name + "  v"@ + version
}

pub fn title_version_line(name: &str, version: &str) -> (r: String)
    ensures
        r@ == title_line(name@, version@),
{
    let mut s = owned(name);
    s.append("  v");
    s.append(version);
    s
}

/// The connected apps as menu entries (id, label), in the order Monitor,
/// Caster, Guilds.
pub open spec fn connected_entries(apps: BridgeAppsStatus) -> Seq<(Seq<char>, Seq<char>)> {
    let m = if apps.monitor { seq![("monitor"@, "Monitor"@)] } else { Seq::empty() };
    let c = if apps.caster { m.push(("caster"@, "Caster"@)) } else { m };
    if apps.guilds { c.push(("guilds"@, "Guilds"@)) } else { c }
}

pub fn connected_menu_entries(apps: BridgeAppsStatus) -> (r: Vec<(&'static str, &'static str)>)
    ensures
        r@.map_values(|e: (&'static str, &'static str)| (e.0@, e.1@)) == connected_entries(apps),
{
    let mut out: Vec<(&'static str, &'static str)> = Vec::new();
    if apps.monitor {
        out.push(("monitor", "Monitor"));
    }
    if apps.caster {
        out.push(("caster", "Caster"));
    }
    if apps.guilds {
        out.push(("guilds", "Guilds"));
    }
    assert(out@.map_values(|e: (&'static str, &'static str)| (e.0@, e.1@)) =~= connected_entries(apps));
    out
}

/// Labels joined with `, `.
pub open spec fn joined(parts: Seq<Seq<char>>) -> Seq<char>
    decreases parts.len(),
{
    if parts.len() == 0 {
        Seq::empty()
    } else if parts.len() == 1 {
        parts[0]
    } else {
        joined(parts.drop_last()) + ", "@ + parts.last()
    }
}

/// The tray tooltip: the connected apps while the hub listens, a waiting
/// note when none is, and a reconnecting note when the hub is down.
pub open spec fn tooltip(listening: bool, apps: BridgeAppsStatus) -> Seq<char> {
    let parts = connected_entries(apps).map_values(|e: (Seq<char>, Seq<char>)| e.1);
    if listening {
        if parts.len() == 0 {
            "Arcane Bridge — hub up, waiting for apps"@
        } else {
            "Arcane Bridge — "@ + joined(parts)
        }
    } else {
        "Arcane Bridge — reconnecting…"@
    }
}

pub fn tray_tooltip(status: &BridgeStatus) -> (r: String)
    ensures
        r@ == tooltip(status.listening, status.apps),
{
    let entries = connected_menu_entries(status.apps);
    let ghost parts = connected_entries(status.apps).map_values(|e: (Seq<char>, Seq<char>)| e.1);
    if !status.listening {
        return owned("Arcane Bridge — reconnecting…");
    }
    if entries.len() == 0 {
        return owned("Arcane Bridge — hub up, waiting for apps");
    }
    let mut s = owned("Arcane Bridge — ");
    let ghost start = s@;
    let mut i: usize = 0;
    while i < entries.len()
        invariant
            0 <= i <= entries@.len(),
            entries@.len() == parts.len(),
            forall|k: int| 0 <= k < parts.len() ==> #[trigger] parts[k] == entries@[k].1@,
            s@ == start + joined(parts.take(i as int)),
        decreases entries.len() - i,
    {
        proof {
            let t = parts.take(i + 1);
            assert(t.drop_last() =~= parts.take(i as int));
        }
        if i > 0 {
            s.append(", ");
        }
        s.append(entries[i].1);
        proof {
            let t = parts.take(i + 1);
            if i == 0 {
                assert(t.len() == 1);
                assert(joined(parts.take(0)) =~= Seq::<char>::empty());
            }
            assert(s@ =~= start + joined(t));
        }
        i = i + 1;
    }
    assert(parts.take(parts.len() as int) =~= parts);
    s
}

} // verus!
