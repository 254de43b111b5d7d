//! The Bridge Console's model: the latest status, the activity log and the
//! app version, and the snapshot the console window shows.
use vstd::prelude::*;
use crate::activity::{MAX_LINES, ActivityLog, keep_last, is_stamp, stamped_all, status_texts, opt_status};
use crate::status::{BridgeAppsStatus, BridgeClient, BridgeStatus, ClientView, StatusView, clone_clients};

verus! {

/// What the console window shows.
#[derive(Clone, Debug)]
pub struct ConsoleSnapshot {
    pub listening: bool,
    pub host: String,
    pub port: u16,
    pub apps: BridgeAppsStatus,
    pub clients: Vec<BridgeClient>,
    pub activity: Vec<String>,
    pub version: String,
}

/// The console's state.
pub struct ConsoleState {
    pub status: BridgeStatus,
    pub activity: ActivityLog,
    pub version: String,
}

/// `log2` is `log` with one line for each text of the change from `prev` to
/// `next`, each with some time stamp, keeping the last `MAX_LINES` lines.
pub open spec fn logged_change(log: Seq<Seq<char>>, prev: Option<StatusView>, next: StatusView, log2: Seq<Seq<char>>) -> bool {
    exists|stamps: Seq<Seq<char>>|
        {
            &&& stamps.len() == status_texts(prev, next).len()
            &&& forall|i: int| 0 <= i < stamps.len() ==> is_stamp(#[trigger] stamps[i])
            &&& log2 == keep_last(log + stamped_all(stamps, status_texts(prev, next)))
        }
}

/// `added2` is `added` (every line ever logged) with one line for each text
/// of the change from `prev` to `next`, each with some time stamp.
pub open spec fn appended_change(added: Seq<Seq<char>>, prev: Option<StatusView>, next: StatusView, added2: Seq<Seq<char>>) -> bool {
    exists|stamps: Seq<Seq<char>>|
        {
            &&& stamps.len() == status_texts(prev, next).len()
            &&& forall|i: int| 0 <= i < stamps.len() ==> is_stamp(#[trigger] stamps[i])
            &&& added2 == added + stamped_all(stamps, status_texts(prev, next))
        }
}

impl ConsoleState {
    /// A console for the first status, whose log holds that status's line.
    pub fn new(version: String, initial: BridgeStatus) -> (r: Self)
        ensures
            r.status@ == initial@,
            r.version@ == version@,
            r.activity@.len() <= MAX_LINES,
            logged_change(Seq::empty(), None, initial@, r.activity@),
            appended_change(Seq::empty(), None, initial@, r.activity.appended()),
            r.activity@ == keep_last(r.activity.appended()),
    {
        let mut activity = ActivityLog::new();
        activity.record_status(None, &initial);
        ConsoleState { status: initial, activity, version }
    }

    /// Takes a new status and logs what changed.
    pub fn apply_status(&mut self, status: BridgeStatus)
        ensures
            final(self).status@ == status@,
            final(self).version@ == old(self).version@,
            old(self).activity@.len() <= MAX_LINES,
            final(self).activity@.len() <= MAX_LINES,
            logged_change(old(self).activity@, Some(old(self).status@), status@, final(self).activity@),
            appended_change(old(self).activity.appended(), Some(old(self).status@), status@, final(self).activity.appended()),
            final(self).activity@ == keep_last(final(self).activity.appended()),
    {
        self.activity.record_status(Some(&self.status), &status);
        self.status = status;
    }

    /// What the console window shows now.
    pub fn snapshot(&self) -> (r: ConsoleSnapshot)
        ensures
            r.listening == self.status.listening,
            r.host@ == self.status.host@,
            r.port == self.status.port,
            r.apps == self.status.apps,
            r.clients@.map_values(|c: BridgeClient| c@) == self.status@.clients,
            r.activity@.map_values(|s: String| s@) == self.activity@,
            r.version@ == self.version@,
    {
        ConsoleSnapshot {
            listening: self.status.listening,
            host: self.status.host.clone(),
            port: self.status.port,
            apps: self.status.apps,
            clients: clone_clients(&self.status.clients),
            activity: self.activity.lines_vec(),
            version: self.version.clone(),
        }
    }
}

} // verus!
