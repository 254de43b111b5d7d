//! The JSON values the hub reads and writes, with their mathematical view.
use vstd::prelude::*;
use crate::text::{decimal, signed_decimal, owned, str_eq, u64_text, i64_text};

verus! {

/// A JSON number as the parser delivers it: a non-negative integer, a negative
/// integer, or any other number kept as its canonical text.
pub enum JsonNumber {
    PosInt(u64),
    NegInt(i64),
    Float(String),
}

/// A JSON value. Objects keep their members in order; lookups use the first
/// member with the key.
pub enum JsonValue {
    Null,
    Bool(bool),
    Number(JsonNumber),
    Str(String),
    Array(Vec<JsonValue>),
    Object(Vec<(String, JsonValue)>),
}

pub enum NumberView {
    PosInt(u64),
    NegInt(i64),
    Float(Seq<char>),
}

pub enum JsonView {
    Null,
    Bool(bool),
    Number(NumberView),
    Str(Seq<char>),
    Array(Seq<JsonView>),
    Object(Seq<(Seq<char>, JsonView)>),
}

pub open spec fn number_view(n: JsonNumber) -> NumberView {
    match n {
        JsonNumber::PosInt(u) => NumberView::PosInt(u),
        JsonNumber::NegInt(i) => NumberView::NegInt(i),
        JsonNumber::Float(s) => NumberView::Float(s@),
    }
}

pub open spec fn json_view(v: JsonValue) -> JsonView
    decreases v,
{
    match v {
        JsonValue::Null => JsonView::Null,
        JsonValue::Bool(b) => JsonView::Bool(b),
        JsonValue::Number(n) => JsonView::Number(number_view(n)),
        JsonValue::Str(s) => JsonView::Str(s@),
        JsonValue::Array(items) => {
            proof {
                broadcast use vstd::std_specs::vec::axiom_vec_decreases_to_view;
            }
            JsonView::Array(items_view(items@))
        },
        JsonValue::Object(entries) => {
            proof {
                broadcast use vstd::std_specs::vec::axiom_vec_decreases_to_view;
            }
            JsonView::Object(entries_view(entries@))
        },
    }
}

pub open spec fn items_view(items: Seq<JsonValue>) -> Seq<JsonView>
    decreases items,
{
    if items.len() == 0 {
        Seq::empty()
    } else {
        proof {
            assert(decreases_to!(items => items.drop_last()));
        }
        items_view(items.drop_last()).push(json_view(items.last()))
    }
}

pub open spec fn entries_view(entries: Seq<(String, JsonValue)>) -> Seq<(Seq<char>, JsonView)>
    decreases entries,
{
    if entries.len() == 0 {
        Seq::empty()
    } else {
        proof {
            assert(decreases_to!(entries => entries.drop_last()));
        }
        entries_view(entries.drop_last()).push((entries.last().0@, json_view(entries.last().1)))
    }
}

impl View for JsonValue {
    type V = JsonView;

    open spec fn view(&self) -> JsonView {
        json_view(*self)
    }
}

pub broadcast proof fn lemma_items_view(items: Seq<JsonValue>)
    ensures
        #[trigger] items_view(items) == items.map_values(|x: JsonValue| json_view(x)),
    decreases items.len(),
{
    if items.len() > 0 {
        lemma_items_view(items.drop_last());
        assert(items_view(items) =~= items.map_values(|x: JsonValue| json_view(x)));
    } else {
        assert(items_view(items) =~= items.map_values(|x: JsonValue| json_view(x)));
    }
}

pub broadcast proof fn lemma_entries_view(entries: Seq<(String, JsonValue)>)
    ensures
        #[trigger] entries_view(entries) == entries.map_values(
            |e: (String, JsonValue)| (e.0@, json_view(e.1)),
        ),
    decreases entries.len(),
{
    if entries.len() > 0 {
        lemma_entries_view(entries.drop_last());
        assert(entries_view(entries) =~= entries.map_values(
            |e: (String, JsonValue)| (e.0@, json_view(e.1)),
        ));
    } else {
        assert(entries_view(entries) =~= entries.map_values(
            |e: (String, JsonValue)| (e.0@, json_view(e.1)),
        ));
    }
}

pub broadcast group group_json_view {
    lemma_items_view,
    lemma_entries_view,
}

/// The value of the first member named `key`.
pub open spec fn find_entry(es: Seq<(Seq<char>, JsonView)>, key: Seq<char>) -> Option<JsonView>
    decreases es.len(),
{
    if es.len() == 0 {
        None
    } else if es[0].0 == key {
        Some(es[0].1)
    } else {
        find_entry(es.drop_first(), key)
    }
}

/// The member `key` of an object; nothing for other values.
pub open spec fn jget(v: JsonView, key: Seq<char>) -> Option<JsonView> {
    match v {
        JsonView::Object(es) => find_entry(es, key),
        _ => None,
    }
}

pub open spec fn jis_object(v: JsonView) -> bool {
    v is Object
}

/// The text of a string value.
pub open spec fn jas_str(v: JsonView) -> Option<Seq<char>> {
    match v {
        JsonView::Str(s) => Some(s),
        _ => None,
    }
}

/// The truth value of a boolean.
pub open spec fn jas_bool(v: JsonView) -> Option<bool> {
    match v {
        JsonView::Bool(b) => Some(b),
        _ => None,
    }
}

/// An integer that fits in `i64`.
pub open spec fn jas_i64(v: JsonView) -> Option<int> {
    match v {
        JsonView::Number(NumberView::PosInt(u)) => if u <= i64::MAX {
            Some(u as int)
        } else {
            None
        },
        JsonView::Number(NumberView::NegInt(i)) => Some(i as int),
        _ => None,
    }
}

/// The member `key` read as a string, when it is one.
pub open spec fn jget_str(v: JsonView, key: Seq<char>) -> Option<Seq<char>> {
    match jget(v, key) {
        Some(x) => jas_str(x),
        None => None,
    }
}

pub open spec fn jhas(v: JsonView, key: Seq<char>) -> bool {
    jget(v, key) is Some
}

pub open spec fn jstr(s: Seq<char>) -> JsonView {
    JsonView::Str(s)
}

pub open spec fn jnat(n: u64) -> JsonView {
    JsonView::Number(NumberView::PosInt(n))
}

/// A string, or `null` for nothing (how an `Option<&str>` serialises).
pub open spec fn jopt_str(s: Option<Seq<char>>) -> JsonView {
    match s {
        Some(t) => JsonView::Str(t),
        None => JsonView::Null,
    }
}

/// Text of a number as serde_json's `Number` displays it.
pub open spec fn number_text(n: NumberView) -> Seq<char> {
    match n {
        NumberView::PosInt(u) => decimal(u as nat),
        NumberView::NegInt(i) => signed_decimal(i as int),
        NumberView::Float(t) => t,
    }
}

/// The compact JSON text that serde_json writes for a value
/// (`serde_json::to_string`, which `Value`'s `Display` also uses).
pub uninterp spec fn json_text(v: JsonView) -> Seq<char>;

/// The value that serde_json reads from a text (`serde_json::from_str`), or
/// nothing when the text is not one JSON value.
pub uninterp spec fn parsed_json(text: Seq<char>) -> Option<JsonView>;

/// serde_json's own value, carried through the conversions below.
#[verifier::external_type_specification]
#[verifier::external_body]
pub struct ExSerdeValue(serde_json::Value);

/// Converts a serde_json value into the library's value, one variant for one:
/// a number becomes `PosInt` when serde_json holds it as a `u64`, `NegInt` as
/// an `i64`, else `Float` with serde_json's text for it. Nothing is stated of
/// it on its own; `parse_json_line` states what the parse and this
/// conversion give together.
#[verifier::external_body]
fn from_serde(v: serde_json::Value) -> JsonValue {
    match v {
        serde_json::Value::Null => JsonValue::Null,
        serde_json::Value::Bool(b) => JsonValue::Bool(b),
        serde_json::Value::Number(n) => JsonValue::Number(match (n.as_u64(), n.as_i64()) {
            (Some(u), _) => JsonNumber::PosInt(u),
            (None, Some(i)) => JsonNumber::NegInt(i),
            (None, None) => JsonNumber::Float(n.to_string()),
        }),
        serde_json::Value::String(t) => JsonValue::Str(t),
        serde_json::Value::Array(a) => JsonValue::Array(a.into_iter().map(from_serde).collect()),
        serde_json::Value::Object(m) => JsonValue::Object(m.into_iter().map(|(k, x)| (k, from_serde(x))).collect()),
    }
}

/// Converts the library's value into a serde_json value, one variant for one
/// (a `Float` number through serde_json's reading of its text). Nothing is
/// stated of it on its own; `json_text_of` states what the conversion and the
/// encoding give together.
#[verifier::external_body]
fn to_serde(v: &JsonValue) -> serde_json::Value {
    match v {
        JsonValue::Null => serde_json::Value::Null,
        JsonValue::Bool(b) => serde_json::Value::Bool(*b),
        JsonValue::Number(JsonNumber::PosInt(u)) => serde_json::Value::from(*u),
        JsonValue::Number(JsonNumber::NegInt(i)) => serde_json::Value::from(*i),
        JsonValue::Number(JsonNumber::Float(t)) => serde_json::from_str(t).unwrap_or(serde_json::Value::Null),
        JsonValue::Str(t) => serde_json::Value::String(t.clone()),
        JsonValue::Array(a) => serde_json::Value::Array(a.iter().map(to_serde).collect()),
        JsonValue::Object(es) => serde_json::Value::Object(es.iter().map(|(k, x)| (k.clone(), to_serde(x))).collect()),
    }
}

/// Reads one JSON value from `line` with `serde_json::from_str`; the result
/// is the name `parsed_json` of the line's text.
#[verifier::external_body]
pub fn parse_json_line(line: &str) -> (r: Option<JsonValue>)
    ensures
        match r {
            Some(v) => parsed_json(line@) == Some(v@),
            None => parsed_json(line@) is None,
        },
{
    serde_json::from_str::<serde_json::Value>(line).ok().map(from_serde)
}

/// Writes a value as compact JSON text with `serde_json::to_string`, which
/// cannot fail on a JSON value (its keys are strings); the result is the name
/// `json_text` of the value. The compact writer puts no whitespace between
/// tokens and escapes a line feed inside a string as `\n`, so the text holds
/// no line feed.
#[verifier::external_body]
pub fn json_text_of(v: &JsonValue) -> (r: String)
    ensures
        r@ == json_text(v@),
        forall|i: int| 0 <= i < r@.len() ==> #[trigger] r@[i] != '\n',
{
    serde_json::to_string(&to_serde(v)).unwrap_or_default()
}

/// One line of the hub's wire format: the value's JSON text and a newline,
/// the only line feed in it.
pub fn json_line(v: &JsonValue) -> (r: String)
    ensures
        r@ == json_text(v@).push('\n'),
        r@.last() == '\n',
        forall|i: int| 0 <= i < r@.len() - 1 ==> #[trigger] r@[i] != '\n',
{
    let mut s = json_text_of(v);
    s.append("\n");
    proof {
        reveal_strlit("\n");
    }
    assert(s@ =~= json_text(v@).push('\n'));
    s
}

/// The request id of an envelope, as text: a string id as is, a
/// number as its decimal text, `null` as the empty string, any other id as its
/// JSON text; no id member gives nothing.
pub open spec fn msg_id_of(msg: JsonView) -> Option<Seq<char>> {
    match jget(msg, "id"@) {
        None => None,
        Some(JsonView::Str(s)) => Some(s),
        Some(JsonView::Number(n)) => Some(number_text(n)),
        Some(JsonView::Null) => Some(Seq::empty()),
        Some(v) => Some(json_text(v)),
    }
}

impl JsonValue {
    /// The member `key` of an object; nothing for other values.
    pub fn get(&self, key: &str) -> (r: Option<&JsonValue>)
        ensures
            match r {
                Some(x) => jget(self@, key@) == Some(x@),
                None => jget(self@, key@) is None,
            },
    {
        broadcast use group_json_view;

        match self {
            JsonValue::Object(entries) => {
                let ghost es = entries_view(entries@);
                assert(es.skip(0) =~= es);
                let mut i: usize = 0;
                while i < entries.len()
                    invariant
                        0 <= i <= entries@.len(),
                        es == entries_view(entries@),
                        es.len() == entries@.len(),
                        jget(self@, key@) == find_entry(es, key@),
                        forall|k: int| 0 <= k < es.len() ==> #[trigger] es[k] == (entries@[k].0@, json_view(entries@[k].1)),
                        find_entry(es, key@) == find_entry(es.skip(i as int), key@),
                    decreases entries.len() - i,
                {
                    let ghost rest = es.skip(i as int);
                    assert(rest[0] == es[i as int]);
                    assert(es[i as int] == (entries@[i as int].0@, json_view(entries@[i as int].1)));
                    if str_eq(entries[i].0.as_str(), key) {
                        return Some(&entries[i].1);
                    }
                    assert(rest.drop_first() =~= es.skip(i + 1));
                    i = i + 1;
                }
                None
            },
            _ => None,
        }
    }

    /// `Map::contains_key` on an object; false for other values.
    pub fn contains_key(&self, key: &str) -> (r: bool)
        ensures
            r == jhas(self@, key@),
    {
        self.get(key).is_some()
    }

    pub fn is_object(&self) -> (r: bool)
        ensures
            r == jis_object(self@),
    {
        match self {
            JsonValue::Object(_) => true,
            _ => false,
        }
    }

    pub fn as_str(&self) -> (r: Option<&str>)
        ensures
            match r {
                Some(s) => jas_str(self@) == Some(s@),
                None => jas_str(self@) is None,
            },
    {
        match self {
            JsonValue::Str(s) => Some(s.as_str()),
            _ => None,
        }
    }

    pub fn as_bool(&self) -> (r: Option<bool>)
        ensures
            r == jas_bool(self@),
    {
        match self {
            JsonValue::Bool(b) => Some(*b),
            _ => None,
        }
    }

    pub fn as_i64(&self) -> (r: Option<i64>)
        ensures
            match r {
                Some(i) => jas_i64(self@) == Some(i as int),
                None => jas_i64(self@) is None,
            },
    {
        match self {
            JsonValue::Number(JsonNumber::PosInt(u)) => if *u <= 0x7fff_ffff_ffff_ffffu64 {
                Some(*u as i64)
            } else {
                None
            },
            JsonValue::Number(JsonNumber::NegInt(i)) => Some(*i),
            _ => None,
        }
    }

    /// A copy of the value (`Clone`).
    #[verifier::loop_isolation(false)]
    pub fn deep_clone(&self) -> (r: JsonValue)
        ensures
            r@ == self@,
        decreases self,
    {
        broadcast use group_json_view;

        match self {
            JsonValue::Null => JsonValue::Null,
            JsonValue::Bool(b) => JsonValue::Bool(*b),
            JsonValue::Number(JsonNumber::PosInt(u)) => JsonValue::Number(JsonNumber::PosInt(*u)),
            JsonValue::Number(JsonNumber::NegInt(i)) => JsonValue::Number(JsonNumber::NegInt(*i)),
            JsonValue::Number(JsonNumber::Float(t)) => JsonValue::Number(
                JsonNumber::Float(t.clone()),
            ),
            JsonValue::Str(s) => JsonValue::Str(s.clone()),
            JsonValue::Array(items) => {
                let mut out: Vec<JsonValue> = Vec::new();
                let mut i: usize = 0;
                while i < items.len()
                    invariant
                        0 <= i <= items@.len(),
                        out@.len() == i,
                        forall|k: int| 0 <= k < i ==> #[trigger] json_view(out@[k]) == json_view(items@[k]),
                    decreases items.len() - i,
                {
                    proof {
                        assert(decreases_to!(items => items[i as int])) by {
                            broadcast use vstd::std_specs::vec::axiom_vec_index_decreases;
                        }
                    }
                    let c = items[i].deep_clone();
                    out.push(c);
                    i = i + 1;
                }
                let r = JsonValue::Array(out);
                assert(items_view(out@) =~= items_view(items@));
                r
            },
            JsonValue::Object(entries) => {
                let mut out: Vec<(String, JsonValue)> = Vec::new();
                let mut i: usize = 0;
                while i < entries.len()
                    invariant
                        0 <= i <= entries@.len(),
                        out@.len() == i,
                        forall|k: int| 0 <= k < i ==> #[trigger] out@[k].0@ == entries@[k].0@
                            && json_view(out@[k].1) == json_view(entries@[k].1),
                    decreases entries.len() - i,
                {
                    proof {
                        assert(decreases_to!(entries => entries[i as int])) by {
                            broadcast use vstd::std_specs::vec::axiom_vec_index_decreases;
                        }
                    }
                    let c = entries[i].1.deep_clone();
                    out.push((entries[i].0.clone(), c));
                    i = i + 1;
                }
                let r = JsonValue::Object(out);
                assert(entries_view(out@) =~= entries_view(entries@));
                r
            },
        }
    }
}

pub fn json_str(s: &str) -> (r: JsonValue)
    ensures
        r@ == jstr(s@),
{
    JsonValue::Str(owned(s))
}

pub fn json_opt_str(s: Option<&str>) -> (r: JsonValue)
    ensures
        r@ == jopt_str(match s {
            Some(t) => Some(t@),
            None => None,
        }),
{
    match s {
        Some(t) => JsonValue::Str(owned(t)),
        None => JsonValue::Null,
    }
}

pub fn json_nat(n: u64) -> (r: JsonValue)
    ensures
        r@ == jnat(n),
{
    JsonValue::Number(JsonNumber::PosInt(n))
}

/// Text of a number (`Number::to_string`).
pub fn number_to_text(n: &JsonNumber) -> (r: String)
    ensures
        r@ == number_text(number_view(*n)),
{
    match n {
        JsonNumber::PosInt(u) => u64_text(*u),
        JsonNumber::NegInt(i) => i64_text(*i),
        JsonNumber::Float(t) => t.clone(),
    }
}

/// The request id of a message as text.
pub fn msg_id(msg: &JsonValue) -> (r: Option<String>)
    ensures
        match r {
            Some(s) => msg_id_of(msg@) == Some(s@),
            None => msg_id_of(msg@) is None,
        },
{
    match msg.get("id") {
        None => None,
        Some(v) => match v {
            JsonValue::Str(s) => Some(s.clone()),
            JsonValue::Number(n) => Some(number_to_text(n)),
            JsonValue::Null => Some(String::new()),
            _ => Some(json_text_of(v)),
        },
    }
}

/// A protocol envelope: `{"schema": 1, "type": t, "id": id, "payload": payload}`.
pub open spec fn envelope(t: Seq<char>, id: JsonView, payload: JsonView) -> JsonView {
    JsonView::Object(
        seq![("schema"@, jnat(1)), ("type"@, jstr(t)), ("id"@, id), ("payload"@, payload)],
    )
}

pub fn make_envelope(t: &str, id: JsonValue, payload: JsonValue) -> (r: JsonValue)
    ensures
        r@ == envelope(t@, id@, payload@),
{
    broadcast use group_json_view;

    let ghost iv = id@;
    let ghost pv = payload@;
    let entries = vec![
        (owned("schema"), json_nat(1)),
        (owned("type"), json_str(t)),
        (owned("id"), id),
        (owned("payload"), payload),
    ];
    let r = JsonValue::Object(entries);
    assert(entries_view(entries@) =~= seq![("schema"@, jnat(1)), ("type"@, jstr(t@)), ("id"@, iv), ("payload"@, pv)]);
    r
}

} // verus!
