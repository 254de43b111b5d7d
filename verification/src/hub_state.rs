//! The hub's shared state: what Monitor publishes (watchlist, vault, session
//! token, views) and what Caster and Guilds publish.
use vstd::prelude::*;
use crate::json::{
    JsonValue, JsonView, json_view, items_view, entries_view, group_json_view, jget, jget_str, jhas,
    jis_object, jopt_str, jstr, json_opt_str, lemma_items_view,
};
use crate::text::{trimmed, upper_case, trim, to_upper, str_eq, owned};

verus! {

pub open spec fn opt_view(o: Option<String>) -> Option<Seq<char>> {
    match o {
        Some(s) => Some(s@),
        None => None,
    }
}

pub open spec fn strs_view(v: Seq<String>) -> Seq<Seq<char>> {
    v.map_values(|s: String| s@)
}

/// Ticker text that stands for "no symbol".
pub open spec fn is_placeholder(s: Seq<char>) -> bool {
    s == "NULL"@ || s == "UNDEFINED"@ || s == "NONE"@ || s == "NIL"@
}

/// A symbol text after trimming and upper-casing, unless that leaves it blank
/// or a placeholder.
pub open spec fn clean_symbol(s: Seq<char>) -> Option<Seq<char>> {
    let t = upper_case(trimmed(s));
    if t.len() == 0 || is_placeholder(t) {
        None
    } else {
        Some(t)
    }
}

/// A published ticker value as a symbol: only strings count.
pub open spec fn symbol_of(v: Option<JsonView>) -> Option<Seq<char>> {
    match v {
        Some(JsonView::Str(s)) => clean_symbol(s),
        _ => None,
    }
}

/// The symbols of a published list, cleaned, each kept at its first occurrence.
pub open spec fn symbol_list(items: Seq<JsonView>) -> Seq<Seq<char>>
    decreases items.len(),
{
    if items.len() == 0 {
        Seq::empty()
    } else {
        let prev = symbol_list(items.drop_last());
        match symbol_of(Some(items.last())) {
            Some(s) => if prev.contains(s) {
                prev
            } else {
                prev.push(s)
            },
            None => prev,
        }
    }
}

/// `normalize_symbols`: the symbols of an array; nothing for any other value.
pub open spec fn symbols_of(v: Option<JsonView>) -> Seq<Seq<char>> {
    match v {
        Some(JsonView::Array(items)) => symbol_list(items),
        _ => Seq::empty(),
    }
}

/// The symbols that are not placeholders, in order.
pub open spec fn without_placeholders(s: Seq<Seq<char>>) -> Seq<Seq<char>>
    decreases s.len(),
{
    if s.len() == 0 {
        Seq::empty()
    } else if is_placeholder(s.last()) {
        without_placeholders(s.drop_last())
    } else {
        without_placeholders(s.drop_last()).push(s.last())
    }
}

/// A focus symbol as the watchlist payload shows it.
pub open spec fn scrubbed(o: Option<Seq<char>>) -> Option<Seq<char>> {
    match o {
        Some(s) => clean_symbol(s),
        None => None,
    }
}

pub struct WatchlistView {
    pub symbols: Seq<Seq<char>>,
    pub manual_focus_symbol: Option<Seq<char>>,
    pub feed_focus_symbol: Option<Seq<char>>,
    pub active_stocks: Seq<JsonView>,
    pub active_ticker: Option<Seq<char>>,
    pub active_hero_mode_enabled: bool,
    pub publisher_user_id: Option<Seq<char>>,
}

pub struct VaultView {
    pub symbols: Seq<Seq<char>>,
    pub publisher_user_id: Option<Seq<char>>,
}

pub struct HubStateView {
    pub watchlist: WatchlistView,
    pub vault: VaultView,
    pub caster_account: Option<JsonView>,
    pub caster_journal: Option<JsonView>,
    pub guilds_feed: Option<JsonView>,
    pub monitor_token: Option<Seq<char>>,
    pub monitor_views: Seq<JsonView>,
    pub monitor_active_pool: bool,
}

struct WatchlistState {
    symbols: Vec<String>,
    manual_focus_symbol: Option<String>,
    feed_focus_symbol: Option<String>,
    active_stocks: Vec<JsonValue>,
    active_ticker: Option<String>,
    active_hero_mode_enabled: bool,
    publisher_user_id: Option<String>,
}

struct VaultState {
    symbols: Vec<String>,
    publisher_user_id: Option<String>,
}

/// In-memory hub state; the Monitor publisher fills most of it.
pub struct HubState {
    watchlist: WatchlistState,
    vault: VaultState,
    caster_account: Option<JsonValue>,
    caster_journal: Option<JsonValue>,
    guilds_feed: Option<JsonValue>,
    monitor_token: Option<String>,
    monitor_views: Vec<JsonValue>,
    monitor_active_pool: bool,
}

pub open spec fn opt_json(o: Option<JsonValue>) -> Option<JsonView> {
    match o {
        Some(v) => Some(json_view(v)),
        None => None,
    }
}

impl View for HubState {
    type V = HubStateView;

    closed spec fn view(&self) -> HubStateView {
        HubStateView {
            watchlist: WatchlistView {
                symbols: strs_view(self.watchlist.symbols@),
                manual_focus_symbol: opt_view(self.watchlist.manual_focus_symbol),
                feed_focus_symbol: opt_view(self.watchlist.feed_focus_symbol),
                active_stocks: items_view(self.watchlist.active_stocks@),
                active_ticker: opt_view(self.watchlist.active_ticker),
                active_hero_mode_enabled: self.watchlist.active_hero_mode_enabled,
                publisher_user_id: opt_view(self.watchlist.publisher_user_id),
            },
            vault: VaultView {
                symbols: strs_view(self.vault.symbols@),
                publisher_user_id: opt_view(self.vault.publisher_user_id),
            },
            caster_account: opt_json(self.caster_account),
            caster_journal: opt_json(self.caster_journal),
            guilds_feed: opt_json(self.guilds_feed),
            monitor_token: opt_view(self.monitor_token),
            monitor_views: items_view(self.monitor_views@),
            monitor_active_pool: self.monitor_active_pool,
        }
    }
}

/// A watchlist with nothing published: no symbols or focus, and
/// active-hero mode on.
pub open spec fn fresh_watchlist() -> WatchlistView {
    WatchlistView {
        symbols: Seq::empty(),
        manual_focus_symbol: None,
        feed_focus_symbol: None,
        active_stocks: Seq::empty(),
        active_ticker: None,
        active_hero_mode_enabled: true,
        publisher_user_id: None,
    }
}

/// The state of a hub with nothing published.
pub open spec fn fresh_state() -> HubStateView {
    HubStateView {
        watchlist: fresh_watchlist(),
        vault: VaultView { symbols: Seq::empty(), publisher_user_id: None },
        caster_account: None,
        caster_journal: None,
        guilds_feed: None,
        monitor_token: None,
        monitor_views: Seq::empty(),
        monitor_active_pool: false,
    }
}

/// A published user id: the trimmed text when it is a non-blank string.
pub open spec fn user_id_of(p: JsonView, keep: Option<Seq<char>>) -> Option<Seq<char>> {
    match jget_str(p, "publisherUserId"@) {
        Some(u) => if trimmed(u).len() > 0 {
            Some(trimmed(u))
        } else {
            keep
        },
        None => keep,
    }
}

/// The watchlist after Monitor publishes `p`: each member present replaces
/// its part; other values change nothing.
pub open spec fn merged_watchlist(w: WatchlistView, p: JsonView) -> WatchlistView {
    if !jis_object(p) {
        w
    } else {
        WatchlistView {
            symbols: if jhas(p, "symbols"@) {
                symbols_of(jget(p, "symbols"@))
            } else {
                w.symbols
            },
            manual_focus_symbol: if jhas(p, "manualFocusSymbol"@) {
                symbol_of(jget(p, "manualFocusSymbol"@))
            } else {
                w.manual_focus_symbol
            },
            feed_focus_symbol: if jhas(p, "feedFocusSymbol"@) {
                symbol_of(jget(p, "feedFocusSymbol"@))
            } else {
                w.feed_focus_symbol
            },
            active_stocks: match jget(p, "activeStocks"@) {
                Some(JsonView::Array(a)) => a,
                _ => w.active_stocks,
            },
            active_ticker: if jhas(p, "activeTicker"@) {
                symbol_of(jget(p, "activeTicker"@))
            } else {
                w.active_ticker
            },
            active_hero_mode_enabled: if jhas(p, "activeHeroModeEnabled"@) {
                jget(p, "activeHeroModeEnabled"@) == Some(JsonView::Bool(true))
            } else {
                w.active_hero_mode_enabled
            },
            publisher_user_id: user_id_of(p, w.publisher_user_id),
        }
    }
}

/// The vault after Monitor publishes `p`.
pub open spec fn merged_vault(v: VaultView, p: JsonView) -> VaultView {
    if !jis_object(p) {
        v
    } else {
        VaultView {
            symbols: if jhas(p, "symbols"@) {
                symbols_of(jget(p, "symbols"@))
            } else {
                v.symbols
            },
            publisher_user_id: user_id_of(p, v.publisher_user_id),
        }
    }
}

/// A Caster or Guilds publication: objects replace what was kept, other
/// values change nothing.
pub open spec fn merged_object(keep: Option<JsonView>, p: JsonView) -> Option<JsonView> {
    if jis_object(p) {
        Some(p)
    } else {
        keep
    }
}

pub open spec fn strs_json(s: Seq<Seq<char>>) -> JsonView {
    JsonView::Array(s.map_values(|t: Seq<char>| jstr(t)))
}

pub open spec fn with_optional(
    es: Seq<(Seq<char>, JsonView)>,
    key: Seq<char>,
    v: Option<Seq<char>>,
) -> Seq<(Seq<char>, JsonView)> {
    match v {
        Some(t) => es.push((key, jstr(t))),
        None => es,
    }
}

/// The watchlist payload sent to subscribers.
pub open spec fn watchlist_json(w: WatchlistView) -> JsonView {
    let base = seq![
        ("symbols"@, strs_json(without_placeholders(w.symbols))),
        ("manualFocusSymbol"@, jopt_str(scrubbed(w.manual_focus_symbol))),
        ("activeStocks"@, JsonView::Array(w.active_stocks)),
        ("activeTicker"@, jopt_str(scrubbed(w.active_ticker))),
        ("activeHeroModeEnabled"@, JsonView::Bool(w.active_hero_mode_enabled)),
    ];
    JsonView::Object(
        with_optional(
            with_optional(base, "feedFocusSymbol"@, scrubbed(w.feed_focus_symbol)),
            "publisherUserId"@,
            w.publisher_user_id,
        ),
    )
}

/// The vault payload sent to subscribers.
pub open spec fn vault_json(v: VaultView) -> JsonView {
    JsonView::Object(
        with_optional(
            seq![("symbols"@, strs_json(v.symbols))],
            "publisherUserId"@,
            v.publisher_user_id,
        ),
    )
}

/// A monitor token that is kept: one that is not blank.
pub open spec fn kept_token(t: Option<Seq<char>>) -> Option<Seq<char>> {
    match t {
        Some(s) => if trimmed(s).len() > 0 {
            Some(s)
        } else {
            None
        },
        None => None,
    }
}

/// The views a Monitor publication lists.
pub open spec fn views_of(p: JsonView) -> Seq<JsonView> {
    match jget(p, "views"@) {
        Some(JsonView::Array(a)) => a,
        _ => Seq::empty(),
    }
}

fn clone_opt_string(o: &Option<String>) -> (r: Option<String>)
    ensures
        opt_view(r) == opt_view(*o),
{
    match o {
        Some(s) => Some(s.clone()),
        None => None,
    }
}

/// A copy of a list of values.
pub fn clone_values(v: &Vec<JsonValue>) -> (r: Vec<JsonValue>)
    ensures
        items_view(r@) == items_view(v@),
{
    broadcast use group_json_view;

    let mut out: Vec<JsonValue> = Vec::new();
    let mut i: usize = 0;
    while i < v.len()
        invariant
            0 <= i <= v@.len(),
            out@.len() == i,
            forall|k: int| 0 <= k < i ==> #[trigger] json_view(out@[k]) == json_view(v@[k]),
        decreases v.len() - i,
    {
        out.push(v[i].deep_clone());
        i = i + 1;
    }
    assert(items_view(out@) =~= items_view(v@));
    out
}

fn clone_opt_json(o: &Option<JsonValue>) -> (r: Option<JsonValue>)
    ensures
        opt_json(r) == opt_json(*o),
{
    match o {
        Some(v) => Some(v.deep_clone()),
        None => None,
    }
}

/// Whether a text is one of the placeholder tickers.
pub fn is_invalid_symbol_placeholder(s: &str) -> (r: bool)
    ensures
        r == is_placeholder(s@),
{
    str_eq(s, "NULL") || str_eq(s, "UNDEFINED") || str_eq(s, "NONE") || str_eq(s, "NIL")
}

fn clean_symbol_text(s: &str) -> (r: Option<String>)
    ensures
        opt_view(r) == clean_symbol(s@),
{
    let t = trim(s);
    let u = to_upper(t.as_str());
    if u.as_str().is_empty() || is_invalid_symbol_placeholder(u.as_str()) {
        None
    } else {
        Some(u)
    }
}

/// `normalize_symbol`: a published ticker value as a symbol.
pub fn normalize_symbol(raw: Option<&JsonValue>) -> (r: Option<String>)
    ensures
        opt_view(r) == symbol_of(match raw {
            Some(v) => Some(v@),
            None => None,
        }),
{
    match raw {
        Some(JsonValue::Str(s)) => clean_symbol_text(s.as_str()),
        _ => None,
    }
}

fn contains_string(v: &Vec<String>, s: &String) -> (r: bool)
    ensures
        r == strs_view(v@).contains(s@),
{
    let ghost sv = strs_view(v@);
    let mut i: usize = 0;
    while i < v.len()
        invariant
            0 <= i <= v@.len(),
            sv == strs_view(v@),
            forall|k: int| 0 <= k < i ==> sv[k] != s@,
        decreases v.len() - i,
    {
        if v[i] == *s {
            assert(sv[i as int] == s@);
            return true;
        }
        i = i + 1;
    }
    false
}

/// `normalize_symbols`: the symbols of a published list.
pub fn normalize_symbols(arr: Option<&JsonValue>) -> (r: Vec<String>)
    ensures
        strs_view(r@) == symbols_of(match arr {
            Some(v) => Some(v@),
            None => None,
        }),
{
    broadcast use group_json_view;

    match arr {
        Some(JsonValue::Array(items)) => {
            let ghost iv = items_view(items@);
            let mut out: Vec<String> = Vec::new();
            let mut i: usize = 0;
            while i < items.len()
                invariant
                    0 <= i <= items@.len(),
                    iv == items_view(items@),
                    iv.len() == items@.len(),
                    strs_view(out@) == symbol_list(iv.take(i as int)),
                decreases items.len() - i,
            {
                let ghost prev = out@;
                let sym = normalize_symbol(Some(&items[i]));
                proof {
                    let t = iv.take(i + 1);
                    assert(t.drop_last() =~= iv.take(i as int));
                    lemma_items_view(items@);
                    assert(iv[i as int] == json_view(items@[i as int]));
                    assert(t.last() == json_view(items@[i as int]));
                }
                match sym {
                    Some(s) => {
                        if !contains_string(&out, &s) {
                            out.push(s);
                            assert(strs_view(out@) =~= strs_view(prev).push(s@));
                        }
                    },
                    None => {},
                }
                i = i + 1;
            }
            assert(iv.take(items@.len() as int) =~= iv);
            out
        },
        _ => Vec::new(),
    }
}

/// The symbols that are not placeholders.
fn filter_placeholders(v: &Vec<String>) -> (r: Vec<String>)
    ensures
        strs_view(r@) == without_placeholders(strs_view(v@)),
{
    let ghost sv = strs_view(v@);
    let mut out: Vec<String> = Vec::new();
    let mut i: usize = 0;
    while i < v.len()
        invariant
            0 <= i <= v@.len(),
            sv == strs_view(v@),
            strs_view(out@) == without_placeholders(sv.take(i as int)),
        decreases v.len() - i,
    {
        proof {
            let t = sv.take(i + 1);
            assert(t.drop_last() =~= sv.take(i as int));
            assert(t.last() == v@[i as int]@);
        }
        if !is_invalid_symbol_placeholder(v[i].as_str()) {
            let ghost prev = out@;
            out.push(v[i].clone());
            assert(strs_view(out@) =~= strs_view(prev).push(v@[i as int]@));
        }
        i = i + 1;
    }
    assert(sv.take(v@.len() as int) =~= sv);
    out
}

fn strs_to_json(v: &Vec<String>) -> (r: JsonValue)
    ensures
        r@ == strs_json(strs_view(v@)),
{
    broadcast use group_json_view;

    let mut items: Vec<JsonValue> = Vec::new();
    let mut i: usize = 0;
    while i < v.len()
        invariant
            0 <= i <= v@.len(),
            items@.len() == i,
            forall|k: int| 0 <= k < i ==> #[trigger] json_view(items@[k]) == jstr(v@[k]@),
        decreases v.len() - i,
    {
        items.push(JsonValue::Str(v[i].clone()));
        i = i + 1;
    }
    assert(items_view(items@) =~= strs_view(v@).map_values(|t: Seq<char>| jstr(t)));
    JsonValue::Array(items)
}

fn scrub_focus(o: &Option<String>) -> (r: Option<String>)
    ensures
        opt_view(r) == scrubbed(opt_view(*o)),
{
    match o {
        Some(s) => clean_symbol_text(s.as_str()),
        None => None,
    }
}

fn push_optional(entries: &mut Vec<(String, JsonValue)>, key: &str, v: Option<String>)
    ensures
        entries_view(final(entries)@) == with_optional(entries_view(old(entries)@), key@, opt_view(v)),
{
    broadcast use group_json_view;

    match v {
        Some(t) => {
            let ghost tv = t@;
            entries.push((owned(key), JsonValue::Str(t)));
            assert(entries_view(final(entries)@) =~= entries_view(old(entries)@).push((key@, jstr(tv))));
        },
        None => {},
    }
}

/// The member `key` of `payload` read as a string.
fn get_str<'a>(payload: &'a JsonValue, key: &str) -> (r: Option<&'a str>)
    ensures
        match r {
            Some(s) => jget_str(payload@, key@) == Some(s@),
            None => jget_str(payload@, key@) is None,
        },
{
    match payload.get(key) {
        Some(v) => v.as_str(),
        None => None,
    }
}

fn published_user_id(payload: &JsonValue, keep: &Option<String>) -> (r: Option<String>)
    ensures
        opt_view(r) == user_id_of(payload@, opt_view(*keep)),
{
    match get_str(payload, "publisherUserId") {
        Some(uid) => {
            let t = trim(uid);
            if !t.as_str().is_empty() {
                Some(t)
            } else {
                clone_opt_string(keep)
            }
        },
        None => clone_opt_string(keep),
    }
}

impl Default for HubState {
    fn default() -> (r: Self)
        ensures
            r@ == fresh_state(),
    {
        let r = HubState {
            watchlist: WatchlistState {
                symbols: Vec::new(),
                manual_focus_symbol: None,
                feed_focus_symbol: None,
                active_stocks: Vec::new(),
                active_ticker: None,
                active_hero_mode_enabled: true,
                publisher_user_id: None,
            },
            vault: VaultState { symbols: Vec::new(), publisher_user_id: None },
            caster_account: None,
            caster_journal: None,
            guilds_feed: None,
            monitor_token: None,
            monitor_views: Vec::new(),
            monitor_active_pool: false,
        };
        assert(r@.watchlist.symbols =~= Seq::empty());
        assert(r@.vault.symbols =~= Seq::empty());
        assert(r@.watchlist.active_stocks =~= Seq::empty());
        assert(r@.monitor_views =~= Seq::empty());
        r
    }
}

impl HubState {
    pub fn monitor_views(&self) -> (r: Vec<JsonValue>)
        ensures
            items_view(r@) == self@.monitor_views,
    {
        clone_values(&self.monitor_views)
    }

    pub fn monitor_active_pool(&self) -> (r: bool)
        ensures
            r == self@.monitor_active_pool,
    {
        self.monitor_active_pool
    }

    pub fn set_monitor_active_pool(&mut self, claimed: bool)
        ensures
            final(self)@ == (HubStateView { monitor_active_pool: claimed, ..old(self)@ }),
    {
        self.monitor_active_pool = claimed;
    }

    /// Keeps the `views` array of a Monitor publication (none for anything else).
    pub fn set_monitor_views(&mut self, payload: &JsonValue)
        ensures
            final(self)@ == (HubStateView { monitor_views: views_of(payload@), ..old(self)@ }),
    {
        broadcast use group_json_view;

        let views = match payload.get("views") {
            Some(JsonValue::Array(a)) => clone_values(a),
            _ => Vec::new(),
        };
        self.monitor_views = views;
        assert(self@.monitor_views =~= views_of(payload@));
    }

    /// The watchlist payload: symbols without placeholders, focus symbols
    /// cleaned, the feed focus and publisher only when present.
    pub fn watchlist_payload(&self) -> (r: JsonValue)
        ensures
            r@ == watchlist_json(self@.watchlist),
    {
        broadcast use group_json_view;

        let w = &self.watchlist;
        let symbols = filter_placeholders(&w.symbols);
        let symbols_json = strs_to_json(&symbols);
        let manual = scrub_focus(&w.manual_focus_symbol);
        let manual_json = json_opt_str(match &manual {
            Some(s) => Some(s.as_str()),
            None => None,
        });
        let ticker = scrub_focus(&w.active_ticker);
        let ticker_json = json_opt_str(match &ticker {
            Some(s) => Some(s.as_str()),
            None => None,
        });
        let stocks = JsonValue::Array(clone_values(&w.active_stocks));
        let ghost sv = symbols_json@;
        let ghost mv = manual_json@;
        let ghost stv = stocks@;
        let ghost tv = ticker_json@;
        let mut entries = vec![
            (owned("symbols"), symbols_json),
            (owned("manualFocusSymbol"), manual_json),
            (owned("activeStocks"), stocks),
            (owned("activeTicker"), ticker_json),
            (owned("activeHeroModeEnabled"), JsonValue::Bool(w.active_hero_mode_enabled)),
        ];
        let ghost base = seq![
            ("symbols"@, strs_json(without_placeholders(self@.watchlist.symbols))),
            ("manualFocusSymbol"@, jopt_str(scrubbed(self@.watchlist.manual_focus_symbol))),
            ("activeStocks"@, JsonView::Array(self@.watchlist.active_stocks)),
            ("activeTicker"@, jopt_str(scrubbed(self@.watchlist.active_ticker))),
            ("activeHeroModeEnabled"@, JsonView::Bool(self@.watchlist.active_hero_mode_enabled)),
        ];
        assert(entries_view(entries@) =~= base);
        let feed = scrub_focus(&w.feed_focus_symbol);
        push_optional(&mut entries, "feedFocusSymbol", feed);
        push_optional(&mut entries, "publisherUserId", clone_opt_string(&w.publisher_user_id));
        JsonValue::Object(entries)
    }

    /// The vault payload.
    pub fn vault_payload(&self) -> (r: JsonValue)
        ensures
            r@ == vault_json(self@.vault),
    {
        broadcast use group_json_view;

        let symbols_json = strs_to_json(&self.vault.symbols);
        let ghost sv = symbols_json@;
        let mut entries = vec![(owned("symbols"), symbols_json)];
        assert(entries_view(entries@) =~= seq![("symbols"@, strs_json(self@.vault.symbols))]);
        push_optional(&mut entries, "publisherUserId", clone_opt_string(&self.vault.publisher_user_id));
        JsonValue::Object(entries)
    }

    pub fn caster_account_payload(&self) -> (r: Option<JsonValue>)
        ensures
            opt_json(r) == self@.caster_account,
    {
        clone_opt_json(&self.caster_account)
    }

    /// Keeps a Caster account publication when it is an object.
    pub fn merge_caster_account_publish(&mut self, payload: &JsonValue)
        ensures
            final(self)@ == (HubStateView {
                caster_account: merged_object(old(self)@.caster_account, payload@),
                ..old(self)@
            }),
    {
        if payload.is_object() {
            self.caster_account = Some(payload.deep_clone());
        }
    }

    pub fn caster_journal_payload(&self) -> (r: Option<JsonValue>)
        ensures
            opt_json(r) == self@.caster_journal,
    {
        clone_opt_json(&self.caster_journal)
    }

    /// Keeps a Caster journal publication when it is an object.
    pub fn merge_caster_journal_publish(&mut self, payload: &JsonValue)
        ensures
            final(self)@ == (HubStateView {
                caster_journal: merged_object(old(self)@.caster_journal, payload@),
                ..old(self)@
            }),
    {
        if payload.is_object() {
            self.caster_journal = Some(payload.deep_clone());
        }
    }

    pub fn guilds_feed_payload(&self) -> (r: Option<JsonValue>)
        ensures
            opt_json(r) == self@.guilds_feed,
    {
        clone_opt_json(&self.guilds_feed)
    }

    /// Keeps a Guilds feed publication when it is an object.
    pub fn merge_guilds_feed_publish(&mut self, payload: &JsonValue)
        ensures
            final(self)@ == (HubStateView {
                guilds_feed: merged_object(old(self)@.guilds_feed, payload@),
                ..old(self)@
            }),
    {
        if payload.is_object() {
            self.guilds_feed = Some(payload.deep_clone());
        }
    }

    /// Merges a watchlist publication from Monitor.
    pub fn merge_watchlist_publish(&mut self, payload: &JsonValue)
        ensures
            final(self)@ == (HubStateView {
                watchlist: merged_watchlist(old(self)@.watchlist, payload@),
                ..old(self)@
            }),
    {
        broadcast use group_json_view;

        if !payload.is_object() {
            return;
        }
        if payload.contains_key("symbols") {
            self.watchlist.symbols = normalize_symbols(payload.get("symbols"));
        }
        if payload.contains_key("manualFocusSymbol") {
            self.watchlist.manual_focus_symbol = normalize_symbol(payload.get("manualFocusSymbol"));
        }
        if payload.contains_key("feedFocusSymbol") {
            self.watchlist.feed_focus_symbol = normalize_symbol(payload.get("feedFocusSymbol"));
        }
        match payload.get("activeStocks") {
            Some(JsonValue::Array(stocks)) => {
                self.watchlist.active_stocks = clone_values(stocks);
            },
            _ => {},
        }
        if payload.contains_key("activeTicker") {
            self.watchlist.active_ticker = normalize_symbol(payload.get("activeTicker"));
        }
        if payload.contains_key("activeHeroModeEnabled") {
            self.watchlist.active_hero_mode_enabled = match payload.get("activeHeroModeEnabled") {
                Some(v) => match v.as_bool() {
                    Some(b) => b,
                    None => false,
                },
                None => false,
            };
        }
        let uid = published_user_id(payload, &self.watchlist.publisher_user_id);
        self.watchlist.publisher_user_id = uid;
    }

    /// Merges a vault publication from Monitor.
    pub fn merge_vault_publish(&mut self, payload: &JsonValue)
        ensures
            final(self)@ == (HubStateView {
                vault: merged_vault(old(self)@.vault, payload@),
                ..old(self)@
            }),
    {
        if !payload.is_object() {
            return;
        }
        if payload.contains_key("symbols") {
            self.vault.symbols = normalize_symbols(payload.get("symbols"));
        }
        let uid = published_user_id(payload, &self.vault.publisher_user_id);
        self.vault.publisher_user_id = uid;
    }

    pub fn set_feed_focus_symbol(&mut self, sym: Option<String>)
        ensures
            final(self)@ == (HubStateView {
                watchlist: WatchlistView { feed_focus_symbol: opt_view(sym), ..old(self)@.watchlist },
                ..old(self)@
            }),
    {
        self.watchlist.feed_focus_symbol = sym;
    }

    /// Keeps the session token unless it is blank.
    pub fn set_monitor_token(&mut self, token: Option<String>)
        ensures
            final(self)@ == (HubStateView { monitor_token: kept_token(opt_view(token)), ..old(self)@ }),
    {
        self.monitor_token = match token {
            Some(t) => {
                let tt = trim(t.as_str());
                if tt.as_str().is_empty() {
                    None
                } else {
                    Some(t)
                }
            },
            None => None,
        };
    }

    pub fn monitor_token(&self) -> (r: Option<&str>)
        ensures
            match r {
                Some(s) => self@.monitor_token == Some(s@),
                None => self@.monitor_token is None,
            },
    {
        match &self.monitor_token {
            Some(t) => Some(t.as_str()),
            None => None,
        }
    }

    /// Forgets everything the Monitor publisher (and the apps) published.
    pub fn clear_monitor_publisher_state(&mut self)
        ensures
            final(self)@ == fresh_state(),
    {
        *self = HubState::default();
    }
}

} // verus!
