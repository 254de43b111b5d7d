//! Decisions about starting the hub helper process.
use vstd::prelude::*;
use crate::text::{str_eq, owned, u64_text, decimal};

verus! {

/// File extensions of hub entries that run as Node scripts.
pub open spec fn is_script_ext(ext: Option<Seq<char>>) -> bool {
    match ext {
        Some(e) => e == "js"@ || e == "cjs"@ || e == "mjs"@,
        None => false,
    }
}

/// Whether a hub entry with this file extension is a script to run with Node.
pub fn is_script_extension(ext: Option<&str>) -> (r: bool)
    ensures
        r == is_script_ext(match ext {
            Some(e) => Some(e@),
            None => None,
        }),
{
    match ext {
        Some(e) => str_eq(e, "js") || str_eq(e, "cjs") || str_eq(e, "mjs"),
        None => false,
    }
}

/// What waiting for a spawned hub does next, at each look at it.
#[derive(PartialEq, Eq, Structural, Debug, Clone, Copy)]
pub enum HubWait {
    /// The hub listens on its port: the wait is over.
    Ready,
    /// The hub process ended before its port opened.
    Exited,
    /// Nothing yet: look again after a pause.
    Retry,
    /// The time allowed has run out.
    TimedOut,
}

/// The step of the wait for a spawned hub: past the deadline it has timed
/// out; else an open port ends it, then a process that has ended fails it,
/// and otherwise it goes on.
pub open spec fn hub_wait(in_time: bool, port_open: bool, exited: bool) -> HubWait {
    if !in_time {
        HubWait::TimedOut
    } else if port_open {
        HubWait::Ready
    } else if exited {
        HubWait::Exited
    } else {
        HubWait::Retry
    }
}

/// One look at a hub being waited for: `in_time` is whether the deadline is
/// still ahead, `port_open` whether the hub's port answers, `exited` whether
/// a process started for it has ended (always false when none was started).
pub fn hub_wait_step(in_time: bool, port_open: bool, exited: bool) -> (r: HubWait)
    ensures
        r == hub_wait(in_time, port_open, exited),
{
    if !in_time {
        HubWait::TimedOut
    } else if port_open {
        HubWait::Ready
    } else if exited {
        HubWait::Exited
    } else {
        HubWait::Retry
    }
}

/// The error when a spawned hub does not listen in time.
pub fn hub_timeout_text(host: &str, port: u16, seconds: u64) -> (r: String)
    ensures
        r@ == "hub did not listen on "@ + host@ + ":"@ + decimal(port as nat) + " within "@
            + decimal(seconds as nat) + "s"@,
{
    let mut s = owned("hub did not listen on ");
    s.append(host);
    s.append(":");
    let p = u64_text(port as u64);
    s.append(p.as_str());
    s.append(" within ");
    let t = u64_text(seconds);
    s.append(t.as_str());
    s.append("s");
    s
}

} // verus!
