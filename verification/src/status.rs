//! Hub status as the tray and the Bridge Console show it, and the settings
//! that choose the hub's address.
use vstd::prelude::*;
use crate::json::{JsonValue, JsonView, json_view, jnat, jstr, json_nat, group_json_view, items_view, entries_view};
use crate::text::{trimmed, trim, owned, parse_u16, parse_u16_text};

verus! {

/// Hub port used when no setting names a valid one.
pub const DEFAULT_BRIDGE_PORT: u16 = 47991;

/// Which Arcane apps are connected.
#[derive(Clone, Copy, Debug)]
pub struct BridgeAppsStatus {
    pub monitor: bool,
    pub caster: bool,
    pub guilds: bool,
}

impl Default for BridgeAppsStatus {
    fn default() -> (r: Self)
        ensures
            !r.monitor && !r.caster && !r.guilds,
    {
        BridgeAppsStatus { monitor: false, caster: false, guilds: false }
    }
}

/// One connected client as listed to admin subscribers.
#[derive(Clone, Debug)]
pub struct BridgeClient {
    pub role: String,
    pub id: String,
    pub connected_at: Option<u64>,
}

pub struct ClientView {
    pub role: Seq<char>,
    pub id: Seq<char>,
    pub connected_at: Option<u64>,
}

impl View for BridgeClient {
    type V = ClientView;

    open spec fn view(&self) -> ClientView {
        ClientView { role: self.role@, id: self.id@, connected_at: self.connected_at }
    }
}

impl Default for BridgeClient {
    fn default() -> (r: Self)
        ensures
            r@ == (ClientView { role: Seq::empty(), id: Seq::empty(), connected_at: None }),
    {
        BridgeClient { role: String::new(), id: String::new(), connected_at: None }
    }
}

impl BridgeClient {
    /// A copy of the client entry.
    pub fn duplicate(&self) -> (r: BridgeClient)
        ensures
            r@ == self@,
    {
        BridgeClient { role: self.role.clone(), id: self.id.clone(), connected_at: self.connected_at }
    }
}

/// Hub status: whether it listens, where, and who is connected.
#[derive(Clone, Debug)]
pub struct BridgeStatus {
    pub listening: bool,
    pub host: String,
    pub port: u16,
    pub apps: BridgeAppsStatus,
    pub clients: Vec<BridgeClient>,
}

pub struct StatusView {
    pub listening: bool,
    pub host: Seq<char>,
    pub port: u16,
    pub apps: BridgeAppsStatus,
    pub clients: Seq<ClientView>,
}

impl View for BridgeStatus {
    type V = StatusView;

    open spec fn view(&self) -> StatusView {
        StatusView {
            listening: self.listening,
            host: self.host@,
            port: self.port,
            apps: self.apps,
            clients: self.clients@.map_values(|c: BridgeClient| c@),
        }
    }
}

pub fn clone_clients(v: &Vec<BridgeClient>) -> (r: Vec<BridgeClient>)
    ensures
        r@.map_values(|c: BridgeClient| c@) == v@.map_values(|c: BridgeClient| c@),
{
    let mut out: Vec<BridgeClient> = Vec::new();
    let mut i: usize = 0;
    while i < v.len()
        invariant
            0 <= i <= v@.len(),
            out@.len() == i,
            forall|k: int| 0 <= k < i ==> #[trigger] out@[k]@ == v@[k]@,
        decreases v.len() - i,
    {
        out.push(v[i].duplicate());
        i = i + 1;
    }
    assert(out@.map_values(|c: BridgeClient| c@) =~= v@.map_values(|c: BridgeClient| c@));
    out
}

impl BridgeStatus {
    /// A copy of the status.
    pub fn duplicate(&self) -> (r: BridgeStatus)
        ensures
            r@ == self@,
    {
        BridgeStatus {
            listening: self.listening,
            host: self.host.clone(),
            port: self.port,
            apps: self.apps,
            clients: clone_clients(&self.clients),
        }
    }
}

/// `{"role": .., "id": .., "connectedAt": ..}`, as a client entry serialises.
pub open spec fn client_json(c: ClientView) -> JsonView {
    JsonView::Object(
        seq![
            ("role"@, jstr(c.role)),
            ("id"@, jstr(c.id)),
            ("connectedAt"@, opt_nat_json(c.connected_at)),
        ],
    )
}

/// A number, or `null` for nothing.
pub open spec fn opt_nat_json(o: Option<u64>) -> JsonView {
    match o {
        Some(t) => jnat(t),
        None => JsonView::Null,
    }
}

pub open spec fn apps_json(a: BridgeAppsStatus) -> JsonView {
    JsonView::Object(
        seq![
            ("monitor"@, JsonView::Bool(a.monitor)),
            ("caster"@, JsonView::Bool(a.caster)),
            ("guilds"@, JsonView::Bool(a.guilds)),
        ],
    )
}

/// The admin payload that describes a status.
pub open spec fn status_json(s: StatusView) -> JsonView {
    JsonView::Object(
        seq![
            ("listening"@, JsonView::Bool(s.listening)),
            ("host"@, jstr(s.host)),
            ("port"@, jnat(s.port as u64)),
            ("apps"@, apps_json(s.apps)),
            ("clients"@, JsonView::Array(s.clients.map_values(|c: ClientView| client_json(c)))),
        ],
    )
}

pub fn client_to_json(c: &BridgeClient) -> (r: JsonValue)
    ensures
        r@ == client_json(c@),
{
    broadcast use group_json_view;

    let at = match c.connected_at {
        Some(t) => json_nat(t),
        None => JsonValue::Null,
    };
    let ghost atv = at@;
    let entries = vec![
        (owned("role"), JsonValue::Str(c.role.clone())),
        (owned("id"), JsonValue::Str(c.id.clone())),
        (owned("connectedAt"), at),
    ];
    assert(entries_view(entries@) =~= seq![("role"@, jstr(c.role@)), ("id"@, jstr(c.id@)), ("connectedAt"@, atv)]);
    let r = JsonValue::Object(entries);
    assert(r@ == JsonView::Object(entries_view(entries@)));
    assert(r@ == JsonView::Object(seq![("role"@, jstr(c.role@)), ("id"@, jstr(c.id@)), ("connectedAt"@, atv)]));
    assert(c@.role == c.role@);
    assert(atv == opt_nat_json(c.connected_at));
    r
}

pub fn apps_to_json(a: BridgeAppsStatus) -> (r: JsonValue)
    ensures
        r@ == apps_json(a),
{
    broadcast use group_json_view;

    let entries = vec![
        (owned("monitor"), JsonValue::Bool(a.monitor)),
        (owned("caster"), JsonValue::Bool(a.caster)),
        (owned("guilds"), JsonValue::Bool(a.guilds)),
    ];
    assert(entries_view(entries@) =~= seq![("monitor"@, JsonView::Bool(a.monitor)), ("caster"@, JsonView::Bool(a.caster)), ("guilds"@, JsonView::Bool(a.guilds))]);
    JsonValue::Object(entries)
}

/// The admin payload of a status: its fields as a JSON object.
pub fn status_to_json(s: &BridgeStatus) -> (r: JsonValue)
    ensures
        r@ == status_json(s@),
{
    broadcast use group_json_view;

    let mut items: Vec<JsonValue> = Vec::new();
    let mut i: usize = 0;
    while i < s.clients.len()
        invariant
            0 <= i <= s.clients@.len(),
            items@.len() == i,
            forall|k: int| 0 <= k < i ==> #[trigger] json_view(items@[k]) == client_json(s.clients@[k]@),
        decreases s.clients.len() - i,
    {
        items.push(client_to_json(&s.clients[i]));
        i = i + 1;
    }
    let ghost cv = s@.clients.map_values(|c: ClientView| client_json(c));
    assert(items_view(items@) =~= cv) by {
        assert(items_view(items@) == items@.map_values(|x: JsonValue| json_view(x)));
    }
    let clients = JsonValue::Array(items);
    assert(clients@ == JsonView::Array(cv));
    let apps = apps_to_json(s.apps);
    let entries = vec![
        (owned("listening"), JsonValue::Bool(s.listening)),
        (owned("host"), JsonValue::Str(s.host.clone())),
        (owned("port"), json_nat(s.port as u64)),
        (owned("apps"), apps),
        (owned("clients"), clients),
    ];
    assert(entries_view(entries@) =~= seq![
        ("listening"@, JsonView::Bool(s.listening)),
        ("host"@, jstr(s.host@)),
        ("port"@, jnat(s.port as u64)),
        ("apps"@, apps_json(s.apps)),
        ("clients"@, JsonView::Array(cv)),
    ]);
    JsonValue::Object(entries)
}

/// The hub host chosen by a setting: the trimmed setting when it is not
/// blank, else `127.0.0.1`.
pub open spec fn host_from(setting: Option<Seq<char>>) -> Seq<char> {
    match setting {
        Some(s) => if trimmed(s).len() > 0 { trimmed(s) } else { "127.0.0.1"@ },
        None => "127.0.0.1"@,
    }
}

/// The hub port chosen by settings: the first setting present (the primary
/// one, else the fallback) when it parses as a non-zero `u16`, else the default.
pub open spec fn port_from(primary: Option<Seq<char>>, fallback: Option<Seq<char>>) -> u16 {
    let raw = match primary {
        Some(p) => Some(p),
        None => fallback,
    };
    match raw {
        Some(t) => match parse_u16(t) {
            Some(p) => if p > 0 { p } else { DEFAULT_BRIDGE_PORT },
            None => DEFAULT_BRIDGE_PORT,
        },
        None => DEFAULT_BRIDGE_PORT,
    }
}

/// Host from the `ARCANE_BRIDGE_HOST` setting: the trimmed setting, or
/// `127.0.0.1` when it is missing or blank.
pub fn bridge_host_from_setting(setting: Option<&str>) -> (r: String)
    ensures
        r@ == host_from(match setting {
            Some(s) => Some(s@),
            None => None,
        }),
{
    match setting {
        Some(s) => {
            let t = trim(s);
            if !t.as_str().is_empty() {
                t
            } else {
                owned("127.0.0.1")
            }
        },
        None => owned("127.0.0.1"),
    }
}

/// Port from the `ARCANE_BRIDGE_PORT` setting, falling back to
/// `ARCANE_GUILD_BRIDGE_PORT`.
pub fn bridge_port_from_settings(primary: Option<&str>, fallback: Option<&str>) -> (r: u16)
    ensures
        r == port_from(
            match primary {
                Some(s) => Some(s@),
                None => None,
            },
            match fallback {
                Some(s) => Some(s@),
                None => None,
            },
        ),
{
    let raw = match primary {
        Some(p) => Some(p),
        None => fallback,
    };
    match raw {
        Some(t) => match parse_u16_text(t) {
            Some(p) => if p > 0 { p } else { DEFAULT_BRIDGE_PORT },
            None => DEFAULT_BRIDGE_PORT,
        },
        None => DEFAULT_BRIDGE_PORT,
    }
}

} // verus!
