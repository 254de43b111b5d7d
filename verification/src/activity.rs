//! The rolling activity lines shown in the Bridge Console.
use vstd::prelude::*;
use crate::status::{BridgeClient, BridgeStatus, ClientView, StatusView};
use crate::text::{decimal, two_digits, owned, push_decimal, push_two_digits, chars_of, string_from_chars, str_eq};

verus! {

/// How many lines the log keeps.
pub const MAX_LINES: usize = 80;

/// The last `MAX_LINES` lines of `s`.
pub open spec fn keep_last(s: Seq<Seq<char>>) -> Seq<Seq<char>> {
    if s.len() > MAX_LINES {
        s.skip(s.len() - MAX_LINES)
    } else {
        s
    }
}

/// Wall-clock time of day in UTC as `HH:MM:SS`, for a time in seconds since
/// the Unix epoch; `--:--:--` when the clock is before the epoch.
pub open spec fn hms(now: Option<u64>) -> Seq<char> {
    match now {
        Some(t) => two_digits(((t / 3600) % 24) as nat) + seq![':'] + two_digits(((t / 60) % 60) as nat)
            + seq![':'] + two_digits((t % 60) as nat),
        None => "--:--:--"@,
    }
}

/// A log line as the console shows it: `[stamp] text`.
pub open spec fn stamped(stamp: Seq<char>, text: Seq<char>) -> Seq<char> {
    seq!['['] + stamp + seq![']', ' '] + text
}

/// Some time stamp the log can show.
pub open spec fn is_stamp(s: Seq<char>) -> bool {
    exists|now: Option<u64>| s == #[trigger] hms(now)
}

/// Lines for `texts`, each with its own stamp.
pub open spec fn stamped_all(stamps: Seq<Seq<char>>, texts: Seq<Seq<char>>) -> Seq<Seq<char>> {
    Seq::new(texts.len(), |i: int| stamped(stamps[i], texts[i]))
}

/// Rolling log of activity lines: the last `MAX_LINES` of every line ever
/// added (`appended`), oldest first.
pub struct ActivityLog {
    lines: Vec<String>,
    added: Ghost<Seq<Seq<char>>>,
}

impl View for ActivityLog {
    type V = Seq<Seq<char>>;

    closed spec fn view(&self) -> Seq<Seq<char>> {
        self.lines@.map_values(|s: String| s@)
    }
}

/// Seconds since the Unix epoch from `SystemTime::now`, or nothing when the
/// clock is before the epoch; it depends on the clock, so nothing is stated of it.
#[verifier::external_body]
fn unix_seconds() -> Option<u64> {
    std::time::SystemTime::now().duration_since(std::time::UNIX_EPOCH).ok().map(|d| d.as_secs())
}

/// The time-of-day stamp for a clock reading, or `--:--:--` without one.
pub fn hms_text(now: Option<u64>) -> (r: String)
    ensures
        r@ == hms(now),
{
    match now {
        Some(t) => {
            let mut cs: Vec<char> = Vec::new();
            push_two_digits((t / 3600) % 24, &mut cs);
            cs.push(':');
            push_two_digits((t / 60) % 60, &mut cs);
            cs.push(':');
            push_two_digits(t % 60, &mut cs);
            assert(cs@ =~= hms(now));
            string_from_chars(cs.as_slice())
        },
        None => owned("--:--:--"),
    }
}

/// The label of a role in log lines (`role_label`).
pub open spec fn role_label(role: Seq<char>) -> Seq<char> {
    if role == "monitor"@ {
        "Monitor"@
    } else if role == "caster"@ {
        "Caster"@
    } else if role == "guilds"@ {
        "Guilds"@
    } else if role == "bridge_app"@ {
        "Bridge"@
    } else {
        "Client"@
    }
}

pub fn role_label_text(role: &str) -> (r: &'static str)
    ensures
        r@ == role_label(role@),
{
    if str_eq(role, "monitor") {
        "Monitor"
    } else if str_eq(role, "caster") {
        "Caster"
    } else if str_eq(role, "guilds") {
        "Guilds"
    } else if str_eq(role, "bridge_app") {
        "Bridge"
    } else {
        "Client"
    }
}

/// The key that identifies a client across status updates (`client_key`).
pub open spec fn client_key(c: ClientView) -> Seq<char> {
    c.role + seq![':'] + c.id
}

pub open spec fn has_key(clients: Seq<ClientView>, k: Seq<char>) -> bool {
    exists|i: int| 0 <= i < clients.len() && client_key(#[trigger] clients[i]) == k
}

/// One line per client of `clients` whose key is not among `others`, in order.
pub open spec fn change_lines(clients: Seq<ClientView>, others: Seq<ClientView>, what: Seq<char>) -> Seq<Seq<char>>
    decreases clients.len(),
{
    if clients.len() == 0 {
        Seq::empty()
    } else {
        let prev = change_lines(clients.drop_last(), others, what);
        let c = clients.last();
        if has_key(others, client_key(c)) {
            prev
        } else {
            prev.push(role_label(c.role) + what + seq!['('] + c.id + seq![')'])
        }
    }
}

pub open spec fn online_line(next: StatusView) -> Seq<char> {
    "Hub online at "@ + next.host + seq![':'] + decimal(next.port as nat)
}

/// The activity texts for a status change (`record_status`): a line when the
/// hub goes online or offline, then one per client that connected, then one
/// per client that disconnected; with no earlier status, a line for the
/// first status.
pub open spec fn status_texts(prev: Option<StatusView>, next: StatusView) -> Seq<Seq<char>> {
    match prev {
        Some(p) => {
            let hub = if p.listening != next.listening {
                if next.listening {
                    seq![online_line(next)]
                } else {
                    seq!["Hub offline — reconnecting…"@]
                }
            } else {
                Seq::empty()
            };
            hub + change_lines(next.clients, p.clients, " connected "@) + change_lines(
                p.clients,
                next.clients,
                " disconnected "@,
            )
        },
        None => if next.listening {
            seq![online_line(next)]
        } else {
            seq!["Waiting for hub…"@]
        },
    }
}

fn client_key_text(c: &BridgeClient) -> (r: String)
    ensures
        r@ == client_key(c@),
{
    let mut s = c.role.clone();
    s.append(":");
    s.append(c.id.as_str());
    proof {
        reveal_strlit(":");
    }
    assert(s@ =~= client_key(c@));
    s
}

fn has_key_text(clients: &Vec<BridgeClient>, key: &String) -> (r: bool)
    ensures
        r == has_key(clients@.map_values(|c: BridgeClient| c@), key@),
{
    let ghost cs = clients@.map_values(|c: BridgeClient| c@);
    let mut i: usize = 0;
    while i < clients.len()
        invariant
            0 <= i <= clients@.len(),
            cs == clients@.map_values(|c: BridgeClient| c@),
            forall|k: int| 0 <= k < i ==> client_key(#[trigger] cs[k]) != key@,
        decreases clients.len() - i,
    {
        let k = client_key_text(&clients[i]);
        if k == *key {
            assert(client_key(cs[i as int]) == key@);
            return true;
        }
        i = i + 1;
    }
    false
}

fn change_text(c: &BridgeClient, what: &str) -> (r: String)
    ensures
        r@ == role_label(c.role@) + what@ + seq!['('] + c.id@ + seq![')'],
{
    let mut s = owned(role_label_text(c.role.as_str()));
    s.append(what);
    s.append("(");
    s.append(c.id.as_str());
    s.append(")");
    proof {
        reveal_strlit("(");
        reveal_strlit(")");
    }
    assert(s@ =~= role_label(c.role@) + what@ + seq!['('] + c.id@ + seq![')']);
    s
}

fn port_text(host: &String, port: u16) -> (r: String)
    ensures
        r@ == "Hub online at "@ + host@ + seq![':'] + decimal(port as nat),
{
    let mut cs: Vec<char> = Vec::new();
    push_decimal(port as u64, &mut cs);
    let digits = string_from_chars(cs.as_slice());
    let mut s = owned("Hub online at ");
    s.append(host.as_str());
    s.append(":");
    s.append(digits.as_str());
    proof {
        reveal_strlit(":");
    }
    assert(s@ =~= "Hub online at "@ + host@ + seq![':'] + decimal(port as nat));
    s
}

impl ActivityLog {
    #[verifier::type_invariant]
    closed spec fn bounded(&self) -> bool {
        &&& self.lines@.len() <= MAX_LINES
        &&& self@ == keep_last(self.added@)
    }

    /// Every line added to the log since it was made, oldest first, including
    /// those it no longer keeps.
    pub closed spec fn appended(&self) -> Seq<Seq<char>> {
        self.added@
    }

    pub fn new() -> (r: Self)
        ensures
            r@ == Seq::<Seq<char>>::empty(),
            r.appended() == Seq::<Seq<char>>::empty(),
    {
        let lines: Vec<String> = Vec::new();
        assert(lines@.map_values(|s: String| s@) =~= keep_last(Seq::<Seq<char>>::empty()));
        ActivityLog { lines, added: Ghost(Seq::empty()) }
    }

    /// The lines, oldest first: the last `MAX_LINES` lines ever added.
    pub fn lines(&self) -> (r: &[String])
        ensures
            r@.map_values(|s: String| s@) == self@,
            self@.len() <= MAX_LINES,
            self@ == keep_last(self.appended()),
    {
        proof {
            use_type_invariant(self);
        }
        self.lines.as_slice()
    }

    /// A copy of the lines, oldest first.
    pub fn lines_vec(&self) -> (r: Vec<String>)
        ensures
            r@.map_values(|s: String| s@) == self@,
    {
        let mut out: Vec<String> = Vec::new();
        let mut i: usize = 0;
        while i < self.lines.len()
            invariant
                0 <= i <= self.lines@.len(),
                out@.len() == i,
                forall|k: int| 0 <= k < i ==> #[trigger] out@[k]@ == self.lines@[k]@,
            decreases self.lines.len() - i,
        {
            out.push(self.lines[i].clone());
            i = i + 1;
        }
        assert(out@.map_values(|s: String| s@) =~= self@);
        out
    }

    /// Adds a line stamped with the clock reading `now` (seconds since the
    /// Unix epoch), keeping only the last `MAX_LINES` lines.
    pub fn push_stamped(&mut self, now: Option<u64>, line: &str)
        ensures
            old(self)@.len() <= MAX_LINES,
            old(self)@ == keep_last(old(self).appended()),
            final(self)@ == keep_last(old(self)@.push(stamped(hms(now), line@))),
            final(self)@.len() <= MAX_LINES,
            final(self).appended() == old(self).appended().push(stamped(hms(now), line@)),
            final(self)@ == keep_last(final(self).appended()),
    {
        proof {
            use_type_invariant(&*self);
        }
        let stamp = hms_text(now);
        let mut text = owned("[");
        text.append(stamp.as_str());
        text.append("] ");
        text.append(line);
        proof {
            reveal_strlit("[");
            reveal_strlit("] ");
        }
        assert(text@ =~= stamped(hms(now), line@));
        let ghost x = stamped(hms(now), line@);
        let ghost pushed = old(self)@.push(x);
        let n = self.lines.len();
        let start: usize = if n >= MAX_LINES { n + 1 - MAX_LINES } else { 0 };
        let mut kept: Vec<String> = Vec::new();
        let mut i: usize = start;
        while i < n
            invariant
                start <= i <= n,
                n == self.lines@.len(),
                kept@.len() == i - start,
                forall|k: int| 0 <= k < i - start ==> #[trigger] kept@[k]@ == self.lines@[k + start]@,
            decreases n - i,
        {
            kept.push(self.lines[i].clone());
            i = i + 1;
        }
        kept.push(text);
        assert(kept@.map_values(|s: String| s@) =~= keep_last(pushed)) by {
            assert(pushed.len() == n + 1);
            assert forall|k: int| 0 <= k < n - start implies #[trigger] kept@[k]@ == pushed[k + start] by {
                assert(self.lines@[k + start]@ == old(self)@[k + start]);
            }
        }
        proof {
            lemma_keep_last_push(old(self).added@, x);
        }
        let ghost new_added = self.added@.push(x);
        *self = ActivityLog { lines: kept, added: Ghost(new_added) };
    }

    /// Adds a line stamped with the current time of day, keeping only the
    /// last `MAX_LINES` lines.
    pub fn push(&mut self, line: &str)
        ensures
            old(self)@.len() <= MAX_LINES,
            old(self)@ == keep_last(old(self).appended()),
            exists|now: Option<u64>| {
                &&& final(self)@ == keep_last(old(self)@.push(#[trigger] stamped(hms(now), line@)))
                &&& final(self).appended() == old(self).appended().push(stamped(hms(now), line@))
            },
            final(self)@.len() <= MAX_LINES,
            final(self)@ == keep_last(final(self).appended()),
    {
        let now = unix_seconds();
        self.push_stamped(now, line);
    }
}

impl Default for ActivityLog {
    fn default() -> (r: Self)
        ensures
            r@ == Seq::<Seq<char>>::empty(),
    {
        ActivityLog::new()
    }
}

proof fn lemma_keep_last_push(s: Seq<Seq<char>>, x: Seq<char>)
    ensures
        keep_last(keep_last(s).push(x)) == keep_last(s.push(x)),
{
    assert(keep_last(keep_last(s).push(x)) =~= keep_last(s.push(x)));
}

impl ActivityLog {
    /// Adds `texts`, each stamped with its own clock reading.
    fn push_all(&mut self, texts: &Vec<String>) -> (stamps: Ghost<Seq<Seq<char>>>)
        ensures
            stamps@.len() == texts@.len(),
            forall|i: int| 0 <= i < texts@.len() ==> is_stamp(#[trigger] stamps@[i]),
            final(self)@ == keep_last(
                old(self)@ + stamped_all(stamps@, texts@.map_values(|s: String| s@)),
            ),
            final(self).appended() == old(self).appended() + stamped_all(stamps@, texts@.map_values(|s: String| s@)),
            final(self)@ == keep_last(final(self).appended()),
    {
        proof {
            use_type_invariant(&*self);
        }
        let ghost tv = texts@.map_values(|s: String| s@);
        let ghost mut stamps: Seq<Seq<char>> = Seq::empty();
        let mut i: usize = 0;
        assert(old(self)@ + stamped_all(stamps, tv.take(0)) =~= old(self)@);
        assert(old(self).appended() + stamped_all(stamps, tv.take(0)) =~= old(self).appended());
        while i < texts.len()
            invariant
                0 <= i <= texts@.len(),
                tv == texts@.map_values(|s: String| s@),
                stamps.len() == i,
                forall|k: int| 0 <= k < i ==> is_stamp(#[trigger] stamps[k]),
                self@ == keep_last(old(self)@ + stamped_all(stamps, tv.take(i as int))),
                self.appended() == old(self).appended() + stamped_all(stamps, tv.take(i as int)),
                self@ == keep_last(self.appended()),
            decreases texts.len() - i,
        {
            let now = unix_seconds();
            self.push_stamped(now, texts[i].as_str());
            proof {
                let st = hms(now);
                assert(is_stamp(st));
                let ns = stamps.push(st);
                let base = old(self)@ + stamped_all(stamps, tv.take(i as int));
                let next = old(self)@ + stamped_all(ns, tv.take(i + 1));
                assert(next =~= base.push(stamped(st, texts@[i as int]@)));
                let hbase = old(self).appended() + stamped_all(stamps, tv.take(i as int));
                let hnext = old(self).appended() + stamped_all(ns, tv.take(i + 1));
                assert(hnext =~= hbase.push(stamped(st, texts@[i as int]@)));
                lemma_keep_last_push(base, stamped(st, texts@[i as int]@));
                stamps = ns;
            }
            i = i + 1;
        }
        assert(tv.take(texts@.len() as int) =~= tv);
        Ghost(stamps)
    }
}

fn push_change_lines(out: &mut Vec<String>, clients: &Vec<BridgeClient>, others: &Vec<BridgeClient>, what: &str)
    ensures
        final(out)@.map_values(|s: String| s@) == old(out)@.map_values(|s: String| s@) + change_lines(
            clients@.map_values(|c: BridgeClient| c@),
            others@.map_values(|c: BridgeClient| c@),
            what@,
        ),
{
    let ghost cv = clients@.map_values(|c: BridgeClient| c@);
    let ghost ov = others@.map_values(|c: BridgeClient| c@);
    let ghost start = old(out)@.map_values(|s: String| s@);
    let mut i: usize = 0;
    assert(cv.take(0) =~= Seq::<ClientView>::empty());
    assert(out@.map_values(|s: String| s@) =~= start + change_lines(cv.take(0), ov, what@));
    while i < clients.len()
        invariant
            0 <= i <= clients@.len(),
            cv == clients@.map_values(|c: BridgeClient| c@),
            ov == others@.map_values(|c: BridgeClient| c@),
            out@.map_values(|s: String| s@) == start + change_lines(cv.take(i as int), ov, what@),
        decreases clients.len() - i,
    {
        proof {
            let t = cv.take(i + 1);
            assert(t.drop_last() =~= cv.take(i as int));
            assert(t.last() == clients@[i as int]@);
        }
        let key = client_key_text(&clients[i]);
        if !has_key_text(others, &key) {
            let ghost before = out@.map_values(|s: String| s@);
            let line = change_text(&clients[i], what);
            out.push(line);
            assert(out@.map_values(|s: String| s@) =~= before.push(
                role_label(clients@[i as int].role@) + what@ + seq!['('] + clients@[i as int].id@ + seq![')'],
            ));
        }
        i = i + 1;
    }
    assert(cv.take(clients@.len() as int) =~= cv);
}

/// The activity texts for a status change.
pub fn status_change_texts(prev: Option<&BridgeStatus>, next: &BridgeStatus) -> (r: Vec<String>)
    ensures
        r@.map_values(|s: String| s@) == status_texts(
            match prev {
                Some(p) => Some(p@),
                None => None,
            },
            next@,
        ),
{
    let mut out: Vec<String> = Vec::new();
    match prev {
        Some(p) => {
            if p.listening != next.listening {
                if next.listening {
                    out.push(port_text(&next.host, next.port));
                } else {
                    out.push(owned("Hub offline — reconnecting…"));
                }
            }
            let ghost hub = out@.map_values(|s: String| s@);
            push_change_lines(&mut out, &next.clients, &p.clients, " connected ");
            push_change_lines(&mut out, &p.clients, &next.clients, " disconnected ");
            assert(out@.map_values(|s: String| s@) =~= status_texts(Some(p@), next@));
        },
        None => {
            if next.listening {
                out.push(port_text(&next.host, next.port));
            } else {
                out.push(owned("Waiting for hub…"));
            }
            assert(out@.map_values(|s: String| s@) =~= status_texts(None, next@));
        },
    }
    out
}

impl ActivityLog {
    /// Logs what changed from `prev` to `next` (`record_status`), each line
    /// with its own time stamp.
    pub fn record_status(&mut self, prev: Option<&BridgeStatus>, next: &BridgeStatus)
        ensures
            old(self)@.len() <= MAX_LINES,
            final(self)@.len() <= MAX_LINES,
            exists|stamps: Seq<Seq<char>>|
                {
                    &&& stamps.len() == status_texts(opt_status(prev), next@).len()
                    &&& forall|i: int| 0 <= i < stamps.len() ==> is_stamp(#[trigger] stamps[i])
                    &&& final(self)@ == keep_last(
                        old(self)@ + stamped_all(stamps, status_texts(opt_status(prev), next@)),
                    )
                    &&& final(self).appended() == old(self).appended() + stamped_all(stamps, status_texts(opt_status(prev), next@))
                },
            old(self)@ == keep_last(old(self).appended()),
            final(self)@ == keep_last(final(self).appended()),
    {
        proof {
            use_type_invariant(&*self);
        }
        let texts = status_change_texts(prev, next);
        let stamps = self.push_all(&texts);
        assert(stamps@.len() == status_texts(opt_status(prev), next@).len());
    }
}

pub open spec fn opt_status(s: Option<&BridgeStatus>) -> Option<StatusView> {
    match s {
        Some(p) => Some(p@),
        None => None,
    }
}

} // verus!
