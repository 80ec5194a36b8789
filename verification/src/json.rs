//! JSON values as the library holds them.

use vstd::prelude::*;

verus! {

/// A JSON number: a non-negative integer, a negative integer, or any other
/// number, kept as its JSON text.
#[derive(Debug)]
pub enum JsonNumber {
    PosInt(u64),
    NegInt(i64),
    Float(String),
}

/// A JSON value. An object's members are held in order, and a key is read
/// from its first member (`lookup`), which is its one member in an object
/// that the JSON parser made.
#[derive(Debug)]
pub enum JsonValue {
    Null,
    Bool(bool),
    Number(JsonNumber),
    Str(String),
    Array(Vec<JsonValue>),
    Object(Vec<JsonEntry>),
}

/// A member of a JSON object.
#[derive(Debug)]
pub struct JsonEntry {
    pub key: String,
    pub value: JsonValue,
}

/// A JSON number as plain values.
pub enum NumberView {
    PosInt(u64),
    NegInt(i64),
    Float(Seq<char>),
}

/// A JSON value as plain values.
pub enum JsonView {
    Null,
    Bool(bool),
    Number(NumberView),
    Str(Seq<char>),
    Array(Seq<JsonView>),
    Object(Seq<EntryView>),
}

/// A member of a JSON object as plain values.
pub struct EntryView {
    pub key: Seq<char>,
    pub value: JsonView,
}

/// The plain value of a JSON number.
pub open spec fn number_view(n: JsonNumber) -> NumberView {
    match n {
        JsonNumber::PosInt(u) => NumberView::PosInt(u),
        JsonNumber::NegInt(i) => NumberView::NegInt(i),
        JsonNumber::Float(s) => NumberView::Float(s@),
    }
}

/// The plain value of a JSON value.
pub open spec fn json_view(v: JsonValue) -> JsonView
    decreases v,
{
    match v {
        JsonValue::Null => JsonView::Null,
        JsonValue::Bool(b) => JsonView::Bool(b),
        JsonValue::Number(n) => JsonView::Number(number_view(n)),
        JsonValue::Str(s) => JsonView::Str(s@),
        JsonValue::Array(items) => JsonView::Array(
            Seq::new(
                items@.len(),
                |i: int|
                    if 0 <= i < items@.len() {
                        json_view(items@[i])
                    } else {
                        JsonView::Null
                    },
            ),
        ),
        JsonValue::Object(entries) => JsonView::Object(
            Seq::new(
                entries@.len(),
                |i: int|
                    if 0 <= i < entries@.len() {
                        EntryView { key: entries@[i].key@, value: json_view(entries@[i].value) }
                    } else {
                        EntryView { key: Seq::empty(), value: JsonView::Null }
                    },
            ),
        ),
    }
}

impl View for JsonValue {
    type V = JsonView;

    open spec fn view(&self) -> JsonView {
        json_view(*self)
    }
}

/// The member `key` of an object: the first with that key; `None` for a
/// missing key and for any value that is not an object.
pub open spec fn view_get(v: JsonView, key: Seq<char>) -> Option<JsonView> {
    match v {
        JsonView::Object(entries) => lookup(entries, key),
        _ => None,
    }
}

/// The value of the first entry with `key`.
pub open spec fn lookup(entries: Seq<EntryView>, key: Seq<char>) -> Option<JsonView>
    decreases entries.len(),
{
    if entries.len() == 0 {
        None
    } else if entries[0].key == key {
        Some(entries[0].value)
    } else {
        lookup(entries.drop_first(), key)
    }
}

/// The string member `key` of `v`, or `fallback` when it is missing or not a
/// string (what `Value::pointer` with `/key`, `as_str` and `unwrap_or` give).
pub open spec fn string_at_view(v: JsonView, key: Seq<char>, fallback: Seq<char>) -> Seq<char> {
    match view_get(v, key) {
        Some(JsonView::Str(s)) => s,
        _ => fallback,
    }
}

/// The boolean member `key` of `v`, when it is one.
pub open spec fn bool_at_view(v: JsonView, key: Seq<char>) -> Option<bool> {
    match view_get(v, key) {
        Some(JsonView::Bool(b)) => Some(b),
        _ => None,
    }
}

/// The member `key` of `v` as an unsigned integer, when it is one
/// (`Value::as_u64`).
pub open spec fn u64_at_view(v: JsonView, key: Seq<char>) -> Option<u64> {
    match view_get(v, key) {
        Some(JsonView::Number(NumberView::PosInt(n))) => Some(n),
        _ => None,
    }
}

/// The member `key` of `v`, or `null`.
pub open spec fn member_or_null(v: JsonView, key: Seq<char>) -> JsonView {
    match view_get(v, key) {
        Some(m) => m,
        None => JsonView::Null,
    }
}

/// The array member `key` of `v`, when it is one.
pub open spec fn array_at_view(v: JsonView, key: Seq<char>) -> Option<Seq<JsonView>> {
    match view_get(v, key) {
        Some(JsonView::Array(items)) => Some(items),
        _ => None,
    }
}

impl JsonValue {
    /// The member `key` of this value, when it is an object that has one.
    pub fn get(&self, key: &str) -> (r: Option<&JsonValue>)
        ensures
            match r {
                Some(m) => view_get(self@, key@) == Some(m@),
                None => view_get(self@, key@) is None,
            },
    {
        match self {
            JsonValue::Object(entries) => {
                let ghost ev = match self@ {
                    JsonView::Object(e) => e,
                    _ => Seq::empty(),
                };
                assert(ev.len() == entries@.len());
                let n = entries.len();
                let mut i: usize = 0;
                assert(ev.skip(0) =~= ev);
                while i < n
                    invariant
                        n == entries@.len(),
                        ev.len() == n,
                        self@ == JsonView::Object(ev),
                        forall|j: int|
                            0 <= j < n ==> #[trigger] ev[j] == (EntryView {
                                key: entries@[j].key@,
                                value: entries@[j].value@,
                            }),
                        0 <= i <= n,
                        lookup(ev, key@) == lookup(ev.skip(i as int), key@),
                    decreases n - i,
                {
                    assert(ev.skip(i as int).drop_first() =~= ev.skip(i + 1));
                    assert(ev.skip(i as int)[0] == ev[i as int]);
                    if crate::text::str_eq(entries[i].key.as_str(), key) {
                        return Some(&entries[i].value);
                    }
                    i = i + 1;
                }
                assert(ev.skip(n as int).len() == 0);
                None
            },
            _ => None,
        }
    }

    /// A copy of this value.
    #[verifier::loop_isolation(false)]
    pub fn deep_clone(&self) -> (r: JsonValue)
        ensures
            r@ == self@,
        decreases self,
    {
        match self {
            JsonValue::Null => JsonValue::Null,
            JsonValue::Bool(b) => JsonValue::Bool(*b),
            JsonValue::Number(JsonNumber::PosInt(n)) => JsonValue::Number(JsonNumber::PosInt(*n)),
            JsonValue::Number(JsonNumber::NegInt(n)) => JsonValue::Number(JsonNumber::NegInt(*n)),
            JsonValue::Number(JsonNumber::Float(t)) => JsonValue::Number(JsonNumber::Float(t.clone())),
            JsonValue::Str(s) => JsonValue::Str(s.clone()),
            JsonValue::Array(items) => {
                let n = items.len();
                let mut out: Vec<JsonValue> = Vec::new();
                let mut i: usize = 0;
                while i < n
                    invariant
                        n == items@.len(),
                        0 <= i <= n,
                        out@.len() == i,
                        forall|j: int| 0 <= j < i ==> json_view(#[trigger] out@[j]) == json_view(items@[j]),
                    decreases n - i,
                {
                    proof {
                        assert(decreases_to!(*self => *items));
                        assert(decreases_to!(*items => items[i as int]));
                        assert(decreases_to!(*self => items[i as int]));
                    }
                    let c = items[i].deep_clone();
                    out.push(c);
                    i = i + 1;
                }
                let r = JsonValue::Array(out);
                proof {
                    if let JsonView::Array(a) = json_view(r) {
                        if let JsonView::Array(b) = json_view(*self) {
                            assert(a =~= b);
                        }
                    }
                }
                r
            },
            JsonValue::Object(entries) => {
                let n = entries.len();
                let mut out: Vec<JsonEntry> = Vec::new();
                let mut i: usize = 0;
                while i < n
                    invariant
                        n == entries@.len(),
                        0 <= i <= n,
                        out@.len() == i,
                        forall|j: int|
                            0 <= j < i ==> (#[trigger] out@[j]).key@ == entries@[j].key@
                                && json_view(out@[j].value) == json_view(entries@[j].value),
                    decreases n - i,
                {
                    proof {
                        assert(decreases_to!(*self => *entries));
                        assert(decreases_to!(*entries => entries[i as int]));
                        assert(decreases_to!(entries[i as int] => entries[i as int].value));
                        assert(decreases_to!(*self => entries[i as int].value));
                    }
                    let v = entries[i].value.deep_clone();
                    out.push(JsonEntry { key: entries[i].key.clone(), value: v });
                    i = i + 1;
                }
                let r = JsonValue::Object(out);
                proof {
                    if let JsonView::Object(a) = json_view(r) {
                        if let JsonView::Object(b) = json_view(*self) {
                            assert(a =~= b);
                        }
                    }
                }
                r
            },
        }
    }
}

/// The string member `key` of `v`, or `fallback`.
pub fn string_at(v: &JsonValue, key: &str, fallback: &str) -> (r: String)
    ensures
        r@ == string_at_view(v@, key@, fallback@),
{
    match v.get(key) {
        Some(JsonValue::Str(s)) => s.clone(),
        _ => fallback.to_owned(),
    }
}

/// The boolean member `key` of `v`, when it is one.
pub fn bool_at(v: &JsonValue, key: &str) -> (r: Option<bool>)
    ensures
        r == bool_at_view(v@, key@),
{
    match v.get(key) {
        Some(JsonValue::Bool(b)) => Some(*b),
        _ => None,
    }
}

/// The member `key` of `v` as an unsigned integer, when it is one.
pub fn u64_at(v: &JsonValue, key: &str) -> (r: Option<u64>)
    ensures
        r == u64_at_view(v@, key@),
{
    match v.get(key) {
        Some(JsonValue::Number(JsonNumber::PosInt(n))) => Some(*n),
        _ => None,
    }
}

} // verus!
