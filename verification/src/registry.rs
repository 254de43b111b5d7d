//! The roles of the apps on the hub's connections, and who subscribes to what.
use std::collections::HashMap;
use std::collections::HashSet;
use vstd::prelude::*;
use crate::status::{BridgeAppsStatus, BridgeClient, BridgeStatus, ClientView, StatusView, status_json, status_to_json};
use crate::json::JsonValue;
use crate::text::{lower_case, owned, seq_contains, trimmed, contains_str, str_eq, to_lower, trim};

verus! {

broadcast use vstd::std_specs::hash::group_hash_axioms;

/// Identifier of one TCP connection to the hub.
pub type ConnId = u64;

/// The Arcane app behind a connection.
#[derive(Clone, Copy, Debug, PartialEq, Eq, Structural)]
pub enum ClientRole {
    Monitor,
    Caster,
    Guilds,
    BridgeApp,
    Unknown,
}

/// Name of a role as it appears in status listings.
pub open spec fn role_name(r: ClientRole) -> Seq<char> {
    match r {
        ClientRole::Monitor => "monitor"@,
        ClientRole::Caster => "caster"@,
        ClientRole::Guilds => "guilds"@,
        ClientRole::BridgeApp => "bridge_app"@,
        ClientRole::Unknown => "unknown"@,
    }
}

impl ClientRole {
    pub fn as_str(self) -> (r: &'static str)
        ensures
            r@ == role_name(self),
    {
        match self {
            ClientRole::Monitor => "monitor",
            ClientRole::Caster => "caster",
            ClientRole::Guilds => "guilds",
            ClientRole::BridgeApp => "bridge_app",
            ClientRole::Unknown => "unknown",
        }
    }
}

/// The role a client id suggests: the id is trimmed and lower-cased, then
/// searched for `monitor`, `caster`, `guilds`, and `bridge` or `admin`, in
/// that order; a blank or missing id, or one with none of these, is unknown.
pub open spec fn infer_role(id: Option<Seq<char>>) -> ClientRole {
    let t = trimmed(
        match id {
            Some(t) => t,
            None => Seq::empty(),
        },
    );
    let s = lower_case(t);
    if t.len() == 0 {
        ClientRole::Unknown
    } else if seq_contains(s, "monitor"@) {
        ClientRole::Monitor
    } else if seq_contains(s, "caster"@) {
        ClientRole::Caster
    } else if seq_contains(s, "guilds"@) {
        ClientRole::Guilds
    } else if seq_contains(s, "bridge"@) || seq_contains(s, "admin"@) {
        ClientRole::BridgeApp
    } else {
        ClientRole::Unknown
    }
}

pub fn infer_role_from_client_id(id: Option<&str>) -> (r: ClientRole)
    ensures
        r == infer_role(match id {
            Some(t) => Some(t@),
            None => None,
        }),
{
    let raw = match id {
        Some(t) => t,
        None => "",
    };
    proof {
        reveal_strlit("");
    }
    assert(raw@ == match id {
        Some(t) => t@,
        None => Seq::<char>::empty(),
    });
    let t = trim(raw);
    if t.as_str().is_empty() {
        return ClientRole::Unknown;
    }
    let s = to_lower(t.as_str());
    let ss = s.as_str();
    if contains_str(ss, "monitor") {
        return ClientRole::Monitor;
    }
    if contains_str(ss, "caster") {
        return ClientRole::Caster;
    }
    if contains_str(ss, "guilds") {
        return ClientRole::Guilds;
    }
    if contains_str(ss, "bridge") || contains_str(ss, "admin") {
        return ClientRole::BridgeApp;
    }
    ClientRole::Unknown
}

/// What the hub knows of a tagged connection.
#[derive(Clone, Debug)]
pub struct ClientMeta {
    pub role: ClientRole,
    pub client_id: String,
    pub connected_at: u64,
}

pub struct MetaView {
    pub role: ClientRole,
    pub client_id: Seq<char>,
    pub connected_at: u64,
}

impl View for ClientMeta {
    type V = MetaView;

    open spec fn view(&self) -> MetaView {
        MetaView { role: self.role, client_id: self.client_id@, connected_at: self.connected_at }
    }
}

/// The subscription topics a connection can join.
pub struct RegistryView {
    pub meta: Map<ConnId, MetaView>,
    pub watchlist: Set<ConnId>,
    pub vault: Set<ConnId>,
    pub caster_account: Set<ConnId>,
    pub caster_journal: Set<ConnId>,
    pub caster_ticket: Set<ConnId>,
    pub caster_blowup: Set<ConnId>,
    pub admin: Set<ConnId>,
    pub publisher: Option<ConnId>,
}

/// Tracks tagged connections, the subscribers of each topic and the
/// connection that publishes for Monitor.
pub struct ConnectionRegistry {
    meta: HashMap<ConnId, ClientMeta>,
    watchlist_subscribers: HashSet<ConnId>,
    vault_subscribers: HashSet<ConnId>,
    caster_account_subscribers: HashSet<ConnId>,
    caster_journal_subscribers: HashSet<ConnId>,
    caster_ticket_subscribers: HashSet<ConnId>,
    caster_blowup_subscribers: HashSet<ConnId>,
    admin_subscribers: HashSet<ConnId>,
    monitor_publisher: Option<ConnId>,
}

/// Milliseconds since the Unix epoch from `SystemTime::now`, or 0 when the
/// clock is before the epoch; it depends on the clock, so nothing is stated of it.
#[verifier::external_body]
pub fn now_ms() -> u64 {
    std::time::SystemTime::now().duration_since(std::time::UNIX_EPOCH).map(
        |d| d.as_millis() as u64,
    ).unwrap_or(0)
}

impl View for ConnectionRegistry {
    type V = RegistryView;

    closed spec fn view(&self) -> RegistryView {
        RegistryView {
            meta: self.meta@.map_values(|m: ClientMeta| m@),
            watchlist: self.watchlist_subscribers@,
            vault: self.vault_subscribers@,
            caster_account: self.caster_account_subscribers@,
            caster_journal: self.caster_journal_subscribers@,
            caster_ticket: self.caster_ticket_subscribers@,
            caster_blowup: self.caster_blowup_subscribers@,
            admin: self.admin_subscribers@,
            publisher: self.monitor_publisher,
        }
    }
}

/// The client entry a connection contributes to a status listing.
pub open spec fn listed_client(reg: RegistryView, id: ConnId) -> ClientView {
    let m = reg.meta[id];
    ClientView {
        role: if reg.publisher == Some(id) { "monitor"@ } else { role_name(m.role) },
        id: m.client_id,
        connected_at: Some(m.connected_at),
    }
}

/// Connections listed in a status: the Monitor publisher and the watchlist
/// subscribers, each only when it has been tagged.
pub open spec fn is_listed(reg: RegistryView, id: ConnId) -> bool {
    reg.meta.contains_key(id) && (reg.publisher == Some(id) || reg.watchlist.contains(id))
}

/// `clients` lists exactly the listed connections of `reg`, each once, in
/// some order.
pub open spec fn lists_clients(reg: RegistryView, clients: Seq<ClientView>) -> bool {
    exists|ids: Seq<ConnId>|
        {
            &&& ids.no_duplicates()
            &&& ids.len() == clients.len()
            &&& forall|k: int| 0 <= k < ids.len() ==> is_listed(reg, #[trigger] ids[k])
            &&& forall|c: ConnId| is_listed(reg, c) ==> #[trigger] ids.contains(c)
            &&& forall|k: int| 0 <= k < ids.len() ==> #[trigger] clients[k] == listed_client(reg, ids[k])
        }
}

pub open spec fn any_role(clients: Seq<ClientView>, role: Seq<char>) -> bool {
    exists|k: int| 0 <= k < clients.len() && #[trigger] clients[k].role == role
}

/// The status that `connections_snapshot` reports for `reg`.
pub open spec fn is_snapshot(reg: RegistryView, host: Seq<char>, port: u16, s: StatusView) -> bool {
    &&& s.listening
    &&& s.host == host
    &&& s.port == port
    &&& lists_clients(reg, s.clients)
    &&& s.apps.monitor == any_role(s.clients, "monitor"@)
    &&& s.apps.caster == any_role(s.clients, "caster"@)
    &&& s.apps.guilds == any_role(s.clients, "guilds"@)
}

/// The registry after `tag`: the connection has the role, the client id when
/// one is given (else the one it had, or the empty id when it had none), and
/// keeps the time it was first tagged.
pub open spec fn tagged(old_reg: RegistryView, new_reg: RegistryView, id: ConnId, role: ClientRole, client_id: Seq<char>) -> bool {
    &&& new_reg == RegistryView { meta: new_reg.meta, ..old_reg }
    &&& new_reg.meta.dom() == old_reg.meta.dom().insert(id)
    &&& forall|k: ConnId| k != id && #[trigger] old_reg.meta.contains_key(k) ==> new_reg.meta[k] == old_reg.meta[k]
    &&& new_reg.meta[id].role == role
    &&& new_reg.meta[id].client_id == if client_id.len() > 0 || !old_reg.meta.contains_key(id) {
        client_id
    } else {
        old_reg.meta[id].client_id
    }
    &&& old_reg.meta.contains_key(id) ==> new_reg.meta[id].connected_at == old_reg.meta[id].connected_at
}

pub open spec fn empty_registry() -> RegistryView {
    RegistryView {
        meta: Map::empty(),
        watchlist: Set::empty(),
        vault: Set::empty(),
        caster_account: Set::empty(),
        caster_journal: Set::empty(),
        caster_ticket: Set::empty(),
        caster_blowup: Set::empty(),
        admin: Set::empty(),
        publisher: None,
    }
}

/// The registry after a connection has gone: it is in no topic and untagged,
/// and no longer the Monitor publisher.
pub open spec fn without_conn(reg: RegistryView, id: ConnId) -> RegistryView {
    RegistryView {
        meta: reg.meta.remove(id),
        watchlist: reg.watchlist.remove(id),
        vault: reg.vault.remove(id),
        caster_account: reg.caster_account.remove(id),
        caster_journal: reg.caster_journal.remove(id),
        caster_ticket: reg.caster_ticket.remove(id),
        caster_blowup: reg.caster_blowup.remove(id),
        admin: reg.admin.remove(id),
        publisher: if reg.publisher == Some(id) { None } else { reg.publisher },
    }
}

impl ConnectionRegistry {
    pub fn new() -> (r: Self)
        ensures
            r@ == empty_registry(),
    {
        let r = ConnectionRegistry {
            meta: HashMap::new(),
            watchlist_subscribers: HashSet::new(),
            vault_subscribers: HashSet::new(),
            caster_account_subscribers: HashSet::new(),
            caster_journal_subscribers: HashSet::new(),
            caster_ticket_subscribers: HashSet::new(),
            caster_blowup_subscribers: HashSet::new(),
            admin_subscribers: HashSet::new(),
            monitor_publisher: None,
        };
        assert(r@.meta =~= Map::empty());
        r
    }

    /// Records the role and client id of a connection; the first tag also
    /// stamps the time.
    pub fn tag(&mut self, id: ConnId, role: ClientRole, client_id: &str)
        ensures
            tagged(old(self)@, final(self)@, id, role, client_id@),
    {
        let existing = match self.meta.get(&id) {
            Some(m) => Some(ClientMeta { role: m.role, client_id: m.client_id.clone(), connected_at: m.connected_at }),
            None => None,
        };
        let entry = match existing {
            Some(m) => ClientMeta {
                role,
                client_id: if client_id.is_empty() { m.client_id } else { owned(client_id) },
                connected_at: m.connected_at,
            },
            None => ClientMeta { role, client_id: owned(client_id), connected_at: now_ms() },
        };
        self.meta.insert(id, entry);
        assert(self@.meta.dom() =~= old(self)@.meta.dom().insert(id));
        assert(self@ == RegistryView { meta: self@.meta, ..old(self)@ });
    }

    /// Forgets a connection; true when it was the Monitor publisher.
    pub fn remove(&mut self, id: ConnId) -> (was_publisher: bool)
        ensures
            final(self)@ == without_conn(old(self)@, id),
            was_publisher == (old(self)@.publisher == Some(id)),
    {
        self.watchlist_subscribers.remove(&id);
        self.vault_subscribers.remove(&id);
        self.caster_account_subscribers.remove(&id);
        self.caster_journal_subscribers.remove(&id);
        self.caster_ticket_subscribers.remove(&id);
        self.caster_blowup_subscribers.remove(&id);
        self.admin_subscribers.remove(&id);
        self.meta.remove(&id);
        let was = self.monitor_publisher == Some(id);
        if was {
            self.monitor_publisher = None;
        }
        assert(self@.meta =~= old(self)@.meta.remove(id));
        assert(self@.watchlist =~= old(self)@.watchlist.remove(id));
        assert(self@.vault =~= old(self)@.vault.remove(id));
        assert(self@.caster_account =~= old(self)@.caster_account.remove(id));
        assert(self@.caster_journal =~= old(self)@.caster_journal.remove(id));
        assert(self@.caster_ticket =~= old(self)@.caster_ticket.remove(id));
        assert(self@.caster_blowup =~= old(self)@.caster_blowup.remove(id));
        assert(self@.admin =~= old(self)@.admin.remove(id));
        was
    }

    pub fn set_monitor_publisher(&mut self, id: ConnId)
        ensures
            final(self)@ == (RegistryView { publisher: Some(id), ..old(self)@ }),
    {
        self.monitor_publisher = Some(id);
    }

    pub fn monitor_publisher(&self) -> (r: Option<ConnId>)
        ensures
            r == self@.publisher,
    {
        self.monitor_publisher
    }

    pub fn clear_monitor_publisher(&mut self)
        ensures
            final(self)@ == (RegistryView { publisher: None, ..old(self)@ }),
    {
        self.monitor_publisher = None;
    }

    pub fn watchlist_subscribers(&self) -> (r: &HashSet<ConnId>)
        ensures
            r@ == self@.watchlist,
    {
        &self.watchlist_subscribers
    }

    pub fn vault_subscribers(&self) -> (r: &HashSet<ConnId>)
        ensures
            r@ == self@.vault,
    {
        &self.vault_subscribers
    }

    pub fn caster_account_subscribers(&self) -> (r: &HashSet<ConnId>)
        ensures
            r@ == self@.caster_account,
    {
        &self.caster_account_subscribers
    }

    pub fn caster_journal_subscribers(&self) -> (r: &HashSet<ConnId>)
        ensures
            r@ == self@.caster_journal,
    {
        &self.caster_journal_subscribers
    }

    pub fn caster_ticket_subscribers(&self) -> (r: &HashSet<ConnId>)
        ensures
            r@ == self@.caster_ticket,
    {
        &self.caster_ticket_subscribers
    }

    pub fn caster_blowup_subscribers(&self) -> (r: &HashSet<ConnId>)
        ensures
            r@ == self@.caster_blowup,
    {
        &self.caster_blowup_subscribers
    }

    pub fn admin_subscribers(&self) -> (r: &HashSet<ConnId>)
        ensures
            r@ == self@.admin,
    {
        &self.admin_subscribers
    }

    pub fn watchlist_subscribers_mut(&mut self) -> (r: &mut HashSet<ConnId>)
        ensures
            r@ == old(self)@.watchlist,
            final(self)@ == (RegistryView { watchlist: final(r)@, ..old(self)@ }),
    {
        &mut self.watchlist_subscribers
    }

    pub fn vault_subscribers_mut(&mut self) -> (r: &mut HashSet<ConnId>)
        ensures
            r@ == old(self)@.vault,
            final(self)@ == (RegistryView { vault: final(r)@, ..old(self)@ }),
    {
        &mut self.vault_subscribers
    }

    pub fn caster_account_subscribers_mut(&mut self) -> (r: &mut HashSet<ConnId>)
        ensures
            r@ == old(self)@.caster_account,
            final(self)@ == (RegistryView { caster_account: final(r)@, ..old(self)@ }),
    {
        &mut self.caster_account_subscribers
    }

    pub fn caster_journal_subscribers_mut(&mut self) -> (r: &mut HashSet<ConnId>)
        ensures
            r@ == old(self)@.caster_journal,
            final(self)@ == (RegistryView { caster_journal: final(r)@, ..old(self)@ }),
    {
        &mut self.caster_journal_subscribers
    }

    pub fn caster_ticket_subscribers_mut(&mut self) -> (r: &mut HashSet<ConnId>)
        ensures
            r@ == old(self)@.caster_ticket,
            final(self)@ == (RegistryView { caster_ticket: final(r)@, ..old(self)@ }),
    {
        &mut self.caster_ticket_subscribers
    }

    pub fn caster_blowup_subscribers_mut(&mut self) -> (r: &mut HashSet<ConnId>)
        ensures
            r@ == old(self)@.caster_blowup,
            final(self)@ == (RegistryView { caster_blowup: final(r)@, ..old(self)@ }),
    {
        &mut self.caster_blowup_subscribers
    }

    pub fn admin_subscribers_mut(&mut self) -> (r: &mut HashSet<ConnId>)
        ensures
            r@ == old(self)@.admin,
            final(self)@ == (RegistryView { admin: final(r)@, ..old(self)@ }),
    {
        &mut self.admin_subscribers
    }
}


/// Whether some client in `clients` has the role `role` (compared as text).
pub fn clients_have_role(clients: &Vec<BridgeClient>, role: &str) -> (r: bool)
    ensures
        r == any_role(clients@.map_values(|c: BridgeClient| c@), role@),
{
    let ghost cs = clients@.map_values(|c: BridgeClient| c@);
    let mut i: usize = 0;
    while i < clients.len()
        invariant
            0 <= i <= clients@.len(),
            cs == clients@.map_values(|c: BridgeClient| c@),
            forall|k: int| 0 <= k < i ==> #[trigger] cs[k].role != role@,
        decreases clients.len() - i,
    {
        if str_eq(clients[i].role.as_str(), role) {
            assert(cs[i as int].role == role@);
            return true;
        }
        i = i + 1;
    }
    false
}

impl ConnectionRegistry {
    /// The status listing: the Monitor publisher (listed with the role
    /// `monitor`) and the tagged watchlist subscribers, in some order.
    pub fn connections_snapshot(&self, host: &str, port: u16) -> (s: BridgeStatus)
        ensures
            is_snapshot(self@, host@, port, s@),
    {
        let ghost reg = self@;
        let mut clients: Vec<BridgeClient> = Vec::new();
        let ghost mut ids: Seq<ConnId> = Seq::empty();
        let mut listed_publisher: Option<ConnId> = None;
        if let Some(id) = self.monitor_publisher {
            if let Some(meta) = self.meta.get(&id) {
                clients.push(
                    BridgeClient {
                        role: owned("monitor"),
                        id: meta.client_id.clone(),
                        connected_at: Some(meta.connected_at),
                    },
                );
                proof {
                    ids = ids.push(id);
                }
                listed_publisher = Some(id);
            }
        }
        proof {
            if listed_publisher is Some {
                assert(ids[0] == listed_publisher->0);
            }
        }
        for sub in it: self.watchlist_subscribers.iter()
            invariant
                reg == self@,
                it.seq().unref().to_set() =~= reg.watchlist,
                it.seq().unref().no_duplicates(),
                listed_publisher == (if reg.publisher is Some && reg.meta.contains_key(reg.publisher->0) {
                    reg.publisher
                } else {
                    None
                }),
                listed_publisher is Some ==> ids.contains(listed_publisher->0),
                ids.no_duplicates(),
                ids.len() == clients@.len(),
                forall|k: int| 0 <= k < ids.len() ==> is_listed(reg, #[trigger] ids[k]),
                forall|k: int| 0 <= k < ids.len() ==> #[trigger] clients@[k]@ == listed_client(reg, ids[k]),
                forall|k: int| 0 <= k < ids.len() ==> listed_publisher == Some(#[trigger] ids[k])
                    || exists|j: int| 0 <= j < it.index() && it.seq().unref()[j] == ids[k],
                forall|c: ConnId| is_listed(reg, c) ==> #[trigger] ids.contains(c)
                    || exists|j: int| it.index() <= j < it.seq().unref().len() && it.seq().unref()[j] == c,
            ensures
                ids.no_duplicates(),
                ids.len() == clients@.len(),
                forall|k: int| 0 <= k < ids.len() ==> is_listed(reg, #[trigger] ids[k]),
                forall|k: int| 0 <= k < ids.len() ==> #[trigger] clients@[k]@ == listed_client(reg, ids[k]),
                forall|c: ConnId| is_listed(reg, c) ==> #[trigger] ids.contains(c),
        {
            let ghost sq = it.seq().unref();
            let ghost idx = it.index() as int;
            let ghost old_ids = ids;
            assert(sq[idx] == *sub);
            if listed_publisher != Some(*sub) {
                if let Some(meta) = self.meta.get(sub) {
                    proof {
                        assert(!ids.contains(*sub)) by {
                            if ids.contains(*sub) {
                                let k = choose|k: int| 0 <= k < ids.len() && ids[k] == *sub;
                                if listed_publisher != Some(ids[k]) {
                                    let j = choose|j: int| 0 <= j < idx && sq[j] == ids[k];
                                    assert(sq[j] == sq[idx]);
                                }
                            }
                        }
                        assert(sq.to_set().contains(*sub));
                        assert(reg.watchlist.contains(*sub));
                        ids = ids.push(*sub);
                    }
                    clients.push(
                        BridgeClient {
                            role: owned(meta.role.as_str()),
                            id: meta.client_id.clone(),
                            connected_at: Some(meta.connected_at),
                        },
                    );
                }
            }
            proof {
                if listed_publisher is Some {
                    let k = choose|k: int| 0 <= k < old_ids.len() && old_ids[k] == listed_publisher->0;
                    assert(ids[k] == listed_publisher->0);
                }
                assert forall|k: int| 0 <= k < ids.len() implies listed_publisher == Some(#[trigger] ids[k])
                    || exists|j: int| 0 <= j < idx + 1 && sq[j] == ids[k] by {
                    if k < old_ids.len() {
                        assert(ids[k] == old_ids[k]);
                    } else {
                        assert(sq[idx] == ids[k]);
                    }
                }
                assert forall|c: ConnId| is_listed(reg, c) implies #[trigger] ids.contains(c)
                    || exists|j: int| idx + 1 <= j < sq.len() && sq[j] == c by {
                    if old_ids.contains(c) {
                        let k = choose|k: int| 0 <= k < old_ids.len() && old_ids[k] == c;
                        assert(ids[k] == c);
                    } else {
                        let j = choose|j: int| idx <= j < sq.len() && sq[j] == c;
                        if j == idx {
                            if listed_publisher == Some(c) {
                                let k = choose|k: int| 0 <= k < old_ids.len() && old_ids[k] == c;
                            } else {
                                assert(ids[ids.len() - 1] == c);
                            }
                        }
                    }
                }
            }
        }
        let monitor = clients_have_role(&clients, "monitor");
        let caster = clients_have_role(&clients, "caster");
        let guilds = clients_have_role(&clients, "guilds");
        let s = BridgeStatus {
            listening: true,
            host: owned(host),
            port,
            apps: BridgeAppsStatus { monitor, caster, guilds },
            clients,
        };
        assert(s@.clients =~= clients@.map_values(|c: BridgeClient| c@));
        assert(lists_clients(reg, s@.clients));
        s
    }

    /// The status listing together with its admin payload.
    pub fn status_and_admin_payload(&self, host: &str, port: u16) -> (r: (BridgeStatus, JsonValue))
        ensures
            is_snapshot(self@, host@, port, r.0@),
            r.1@ == status_json(r.0@),
    {
        let status = self.connections_snapshot(host, port);
        let payload = status_to_json(&status);
        (status, payload)
    }

    /// The admin payload of the status listing.
    pub fn admin_payload(&self, host: &str, port: u16) -> (r: JsonValue)
        ensures
            exists|s: StatusView| is_snapshot(self@, host@, port, s) && r@ == status_json(s),
    {
        let (status, payload) = self.status_and_admin_payload(host, port);
        payload
    }
}

} // verus!
