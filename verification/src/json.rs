//! The JSON documents that flow through the proxy, and the field operations the request
//! handlers perform on them.
use vstd::prelude::*;

verus! {

#[verifier::external_type_specification]
#[verifier::external_body]
pub struct ExJsonNumber(serde_json::Number);

#[verifier::external_type_specification]
#[verifier::external_body]
pub struct ExJsonValue(serde_json::Value);

/// A JSON document.
///
/// Numbers keep the three forms a JSON reader distinguishes: non-negative integers,
/// negative integers, and floating-point numbers, the last carried through as serde_json's
/// own number. The entries of an object are kept in a vector; their order carries no meaning.
#[derive(Debug, PartialEq)]
pub enum Json {
    Null,
    Bool(bool),
    PosInt(u64),
    NegInt(i64),
    Float(serde_json::Number),
    Str(String),
    Array(Vec<Json>),
    Object(Vec<(String, Json)>),
}

/// The mathematical value of a [`Json`] document.
pub enum JsonView {
    Null,
    Bool(bool),
    PosInt(u64),
    NegInt(i64),
    Float(serde_json::Number),
    Str(Seq<char>),
    Array(Seq<JsonView>),
    Object(Seq<(Seq<char>, JsonView)>),
}

pub open spec fn json_view(j: Json) -> JsonView
    decreases j,
{
    match j {
        Json::Null => JsonView::Null,
        Json::Bool(b) => JsonView::Bool(b),
        Json::PosInt(n) => JsonView::PosInt(n),
        Json::NegInt(n) => JsonView::NegInt(n),
        Json::Float(n) => JsonView::Float(n),
        Json::Str(s) => JsonView::Str(s@),
        Json::Array(items) => JsonView::Array(items_view(items@)),
        Json::Object(entries) => JsonView::Object(entries_view(entries@)),
    }
}

pub open spec fn items_view(items: Seq<Json>) -> Seq<JsonView>
    decreases items,
{
    if items.len() == 0 {
        Seq::empty()
    } else {
        seq![json_view(items[0])] + items_view(items.subrange(1, items.len() as int))
    }
}

pub open spec fn entries_view(entries: Seq<(String, Json)>) -> Seq<(Seq<char>, JsonView)>
    decreases entries,
{
    if entries.len() == 0 {
        Seq::empty()
    } else {
        seq![(entries[0].0@, json_view(entries[0].1))] + entries_view(
            entries.subrange(1, entries.len() as int),
        )
    }
}

impl View for Json {
    type V = JsonView;

    open spec fn view(&self) -> JsonView {
        json_view(*self)
    }
}

/// The compact JSON text serde_json writes for the document `v` (as `to_string` and the
/// `Display` of its `Value` do).
pub uninterp spec fn json_text(v: JsonView) -> Seq<char>;

/// Turns a document into serde_json's `Value`, variant for variant.
#[verifier::external_body]
fn to_value(v: &Json) -> serde_json::Value {
    match v {
        Json::Null => serde_json::Value::Null,
        Json::Bool(b) => serde_json::Value::Bool(*b),
        Json::PosInt(n) => serde_json::Value::from(*n),
        Json::NegInt(n) => serde_json::Value::from(*n),
        Json::Float(n) => serde_json::Value::Number(n.clone()),
        Json::Str(s) => serde_json::Value::String(s.clone()),
        Json::Array(items) => serde_json::Value::Array(items.iter().map(to_value).collect()),
        Json::Object(entries) => serde_json::Value::Object(
            entries.iter().map(|(k, x)| (k.clone(), to_value(x))).collect(),
        ),
    }
}

/// Writes a document as compact JSON text with serde_json (the `Display` of its `Value`).
/// Claimed: the text is the one named by `json_text` for the document.
#[verifier::external_body]
pub(crate) fn json_to_text(v: &Json) -> (r: String)
    ensures
        r@ == json_text(v@),
{
    to_value(v).to_string()
}

/// The entries of `entries` before index `i` do not carry `key`.
pub open spec fn key_absent_before(entries: Seq<(Seq<char>, JsonView)>, key: Seq<char>, i: int) -> bool {
    forall|j: int| 0 <= j < i ==> #[trigger] entries[j].0 != key
}

/// `i` is the first index of `entries` whose key is `key`.
pub open spec fn first_key_at(entries: Seq<(Seq<char>, JsonView)>, key: Seq<char>, i: int) -> bool {
    &&& 0 <= i < entries.len()
    &&& entries[i].0 == key
    &&& key_absent_before(entries, key, i)
}

/// The value an object with these entries gives for `key`: the first entry that carries it.
pub open spec fn lookup(entries: Seq<(Seq<char>, JsonView)>, key: Seq<char>) -> Option<JsonView> {
    if exists|i: int| first_key_at(entries, key, i) {
        Some(entries[choose|i: int| first_key_at(entries, key, i)].1)
    } else {
        None
    }
}

/// The value stored under `key` when `v` is an object that has it.
pub open spec fn member(v: JsonView, key: Seq<char>) -> Option<JsonView> {
    match v {
        JsonView::Object(entries) => lookup(entries, key),
        _ => None,
    }
}

/// What indexing `v` by `key` reads: the member, or `Null` when there is none
/// (also when `v` is not an object).
pub open spec fn field(v: JsonView, key: Seq<char>) -> JsonView {
    match member(v, key) {
        Some(x) => x,
        None => JsonView::Null,
    }
}

/// The entries of `v` when it is an object, and none otherwise.
pub open spec fn object_entries(v: JsonView) -> Seq<(Seq<char>, JsonView)> {
    match v {
        JsonView::Object(entries) => entries,
        _ => Seq::empty(),
    }
}

/// The entries after `key` is set to `value`: the first entry with that key takes the
/// value, or a new entry is added at the end.
pub open spec fn entries_with(
    entries: Seq<(Seq<char>, JsonView)>,
    key: Seq<char>,
    value: JsonView,
) -> Seq<(Seq<char>, JsonView)> {
    if exists|i: int| first_key_at(entries, key, i) {
        entries.update(choose|i: int| first_key_at(entries, key, i), (key, value))
    } else {
        entries.push((key, value))
    }
}

/// The document after `key` is set to `value` in `v`, where `v` is an object or `Null`
/// (a `Null` becomes an object first).
pub open spec fn with_field(v: JsonView, key: Seq<char>, value: JsonView) -> JsonView {
    JsonView::Object(entries_with(object_entries(v), key, value))
}

/// Whether a field can be set in `v`: only objects and `Null` take fields.
pub open spec fn takes_fields(v: JsonView) -> bool {
    v is Object || v is Null
}

/// No two entries of `entries` carry the same key.
pub open spec fn keys_distinct(entries: Seq<(Seq<char>, JsonView)>) -> bool {
    forall|i: int, j: int|
        0 <= i < entries.len() && 0 <= j < entries.len() && i != j ==> #[trigger] entries[i].0
            != #[trigger] entries[j].0
}

/// The number a JSON value reads as when a signed 64-bit integer is asked of it.
pub open spec fn as_i64_spec(v: JsonView) -> Option<i64> {
    match v {
        JsonView::PosInt(n) => if n <= i64::MAX {
            Some(n as i64)
        } else {
            None
        },
        JsonView::NegInt(n) => Some(n),
        _ => None,
    }
}

/// The JSON number for a signed integer: negative ones are kept as negative integers,
/// the others as non-negative integers.
pub open spec fn int_view(n: i64) -> JsonView {
    if n < 0 {
        JsonView::NegInt(n)
    } else {
        JsonView::PosInt(n as u64)
    }
}

pub proof fn lemma_entries_view(entries: Seq<(String, Json)>)
    ensures
        entries_view(entries).len() == entries.len(),
        forall|i: int|
            0 <= i < entries.len() ==> #[trigger] entries_view(entries)[i] == (
                entries[i].0@,
                json_view(entries[i].1),
            ),
    decreases entries.len(),
{
    if entries.len() > 0 {
        let rest = entries.subrange(1, entries.len() as int);
        lemma_entries_view(rest);
        assert forall|i: int| 0 <= i < entries.len() implies #[trigger] entries_view(entries)[i] == (
            entries[i].0@,
            json_view(entries[i].1),
        ) by {
            if i > 0 {
                assert(rest[i - 1] == entries[i]);
            }
        }
    }
}

pub proof fn lemma_items_view(items: Seq<Json>)
    ensures
        items_view(items).len() == items.len(),
        forall|i: int| 0 <= i < items.len() ==> #[trigger] items_view(items)[i] == json_view(items[i]),
    decreases items.len(),
{
    if items.len() > 0 {
        let rest = items.subrange(1, items.len() as int);
        lemma_items_view(rest);
        assert forall|i: int| 0 <= i < items.len() implies #[trigger] items_view(items)[i] == json_view(items[i]) by {
            if i > 0 {
                assert(rest[i - 1] == items[i]);
            }
        }
    }
}

/// Two first indices of a key are the same index.
proof fn lemma_first_key_unique(entries: Seq<(Seq<char>, JsonView)>, key: Seq<char>, i: int, j: int)
    requires
        first_key_at(entries, key, i),
        first_key_at(entries, key, j),
    ensures
        i == j,
{
    if i < j {
        assert(entries[i].0 != key);
    } else if j < i {
        assert(entries[j].0 != key);
    }
}

/// The view of entries is determined entry by entry.
proof fn lemma_entries_view_ext(a: Seq<(String, Json)>, b: Seq<(Seq<char>, JsonView)>)
    requires
        a.len() == b.len(),
        forall|i: int| 0 <= i < a.len() ==> (a[i].0@, json_view(a[i].1)) == #[trigger] b[i],
    ensures
        entries_view(a) == b,
{
    lemma_entries_view(a);
    assert(entries_view(a) =~= b);
}

/// A key that occurs somewhere has a first occurrence.
proof fn lemma_first_key_exists(entries: Seq<(Seq<char>, JsonView)>, key: Seq<char>, i: int)
    requires
        0 <= i < entries.len(),
        entries[i].0 == key,
    ensures
        exists|k: int| first_key_at(entries, key, k),
    decreases i,
{
    if key_absent_before(entries, key, i) {
        assert(first_key_at(entries, key, i));
    } else {
        let j = choose|j: int| 0 <= j < i && #[trigger] entries[j].0 == key;
        lemma_first_key_exists(entries, key, j);
    }
}

/// Where the entries at all other indices keep their keys and index `i` carries neither
/// key, the first occurrence of `other` is where it was.
proof fn lemma_first_key_same(
    a: Seq<(Seq<char>, JsonView)>,
    b: Seq<(Seq<char>, JsonView)>,
    other: Seq<char>,
    n: int,
)
    requires
        n <= a.len(),
        n <= b.len(),
        forall|j: int| 0 <= j < n ==> #[trigger] a[j].0 == b[j].0,
        forall|j: int| n <= j < a.len() ==> #[trigger] a[j].0 != other,
        forall|j: int| n <= j < b.len() ==> #[trigger] b[j].0 != other,
    ensures
        forall|k: int| first_key_at(a, other, k) <==> first_key_at(b, other, k),
{
    assert forall|k: int| first_key_at(a, other, k) implies first_key_at(b, other, k) by {
        assert(k < n);
        assert forall|j: int| 0 <= j < k implies #[trigger] b[j].0 != other by {
            assert(a[j].0 == b[j].0);
        }
    }
    assert forall|k: int| first_key_at(b, other, k) implies first_key_at(a, other, k) by {
        assert(k < n);
        assert forall|j: int| 0 <= j < k implies #[trigger] a[j].0 != other by {
            assert(a[j].0 == b[j].0);
        }
    }
}

/// Law: setting a field and then reading it gives back the value that was set.
pub proof fn lemma_with_field_reads_back(v: JsonView, key: Seq<char>, value: JsonView)
    requires
        takes_fields(v),
    ensures
        member(with_field(v, key, value), key) == Some(value),
        field(with_field(v, key, value), key) == value,
{
    let e = object_entries(v);
    let e2 = entries_with(e, key, value);
    if exists|i: int| first_key_at(e, key, i) {
        let i = choose|i: int| first_key_at(e, key, i);
        assert forall|j: int| 0 <= j < i implies #[trigger] e2[j].0 != key by {
            assert(e2[j] == e[j]);
        }
        assert(first_key_at(e2, key, i));
        let c = choose|k: int| first_key_at(e2, key, k);
        lemma_first_key_unique(e2, key, i, c);
    } else {
        let n = e.len() as int;
        assert forall|j: int| 0 <= j < n implies #[trigger] e2[j].0 != key by {
            assert(e2[j] == e[j]);
            if e[j].0 == key {
                lemma_first_key_exists(e, key, j);
            }
        }
        assert(first_key_at(e2, key, n));
        let c = choose|k: int| first_key_at(e2, key, k);
        lemma_first_key_unique(e2, key, n, c);
    }
}

/// Law: setting a field leaves every other field as it was.
pub proof fn lemma_with_field_keeps_others(
    v: JsonView,
    key: Seq<char>,
    other: Seq<char>,
    value: JsonView,
)
    requires
        takes_fields(v),
        other != key,
    ensures
        member(with_field(v, key, value), other) == member(v, other),
        field(with_field(v, key, value), other) == field(v, other),
{
    let e = object_entries(v);
    let e2 = entries_with(e, key, value);
    if exists|i: int| first_key_at(e, key, i) {
        let i = choose|i: int| first_key_at(e, key, i);
        let n = e.len() as int;
        assert forall|j: int| 0 <= j < n implies #[trigger] e[j].0 == e2[j].0 by {
            if j == i {
                assert(e[j].0 == key);
            }
        }
        lemma_first_key_same(e, e2, other, n);
        if exists|k: int| first_key_at(e, other, k) {
            let k = choose|k: int| first_key_at(e, other, k);
            assert(k != i);
            assert(e2[k] == e[k]);
            let c = choose|k2: int| first_key_at(e2, other, k2);
            lemma_first_key_unique(e2, other, k, c);
        }
    } else {
        let n = e.len() as int;
        assert forall|j: int| 0 <= j < n implies #[trigger] e[j].0 == e2[j].0 by {
            assert(e2[j] == e[j]);
        }
        lemma_first_key_same(e, e2, other, n);
        if exists|k: int| first_key_at(e, other, k) {
            let k = choose|k: int| first_key_at(e, other, k);
            assert(e2[k] == e[k]);
            let c = choose|k2: int| first_key_at(e2, other, k2);
            lemma_first_key_unique(e2, other, k, c);
        }
    }
    if v is Null {
        assert(member(v, other) is None);
    }
}

/// Law: an object whose keys are distinct keeps them distinct when a field is set.
pub proof fn lemma_with_field_keeps_keys_distinct(v: JsonView, key: Seq<char>, value: JsonView)
    requires
        takes_fields(v),
        keys_distinct(object_entries(v)),
    ensures
        keys_distinct(object_entries(with_field(v, key, value))),
{
    let e = object_entries(v);
    let e2 = entries_with(e, key, value);
    if exists|i: int| first_key_at(e, key, i) {
        let i = choose|i: int| first_key_at(e, key, i);
        assert forall|a: int, b: int|
            0 <= a < e2.len() && 0 <= b < e2.len() && a != b implies #[trigger] e2[a].0
            != #[trigger] e2[b].0 by {
            assert(e[a].0 != e[b].0);
            if a == i {
                assert(e[a].0 == key);
            }
            if b == i {
                assert(e[b].0 == key);
            }
        }
    } else {
        let n = e.len() as int;
        assert forall|a: int, b: int|
            0 <= a < e2.len() && 0 <= b < e2.len() && a != b implies #[trigger] e2[a].0
            != #[trigger] e2[b].0 by {
            if a < n && b < n {
                assert(e[a].0 != e[b].0);
            } else if a == n {
                assert(e2[b] == e[b]);
                if e[b].0 == key {
                    lemma_first_key_exists(e, key, b);
                }
            } else {
                assert(e2[a] == e[a]);
                if e[a].0 == key {
                    lemma_first_key_exists(e, key, a);
                }
            }
        }
    }
}

fn find_entry(entries: &Vec<(String, Json)>, key: &String) -> (r: Option<usize>)
    ensures
        match r {
            Some(i) => first_key_at(entries_view(entries@), key@, i as int),
            None => !exists|i: int| first_key_at(entries_view(entries@), key@, i),
        },
{
    proof {
        lemma_entries_view(entries@);
    }
    let ghost ev = entries_view(entries@);
    let mut i: usize = 0;
    while i < entries.len()
        invariant
            i <= entries.len(),
            ev == entries_view(entries@),
            ev.len() == entries.len(),
            forall|k: int|
                0 <= k < entries.len() ==> #[trigger] ev[k] == (
                    entries@[k].0@,
                    json_view(entries@[k].1),
                ),
            key_absent_before(ev, key@, i as int),
        decreases entries.len() - i,
    {
        assert(ev[i as int] == (entries@[i as int].0@, json_view(entries@[i as int].1)));
        if entries[i].0 == *key {
            return Some(i);
        }
        i = i + 1;
    }
    None
}

impl Json {
    /// A JSON string holding `s`.
    pub fn text(s: &str) -> (r: Json)
        ensures
            r@ == JsonView::Str(s@),
    {
        Json::Str(s.to_string())
    }

    /// An object with no entries.
    pub fn empty_object() -> (r: Json)
        ensures
            r@ == JsonView::Object(Seq::empty()),
    {
        let entries: Vec<(String, Json)> = Vec::new();
        proof {
            lemma_entries_view_ext(entries@, Seq::empty());
        }
        Json::Object(entries)
    }

    /// An object with the single entry `k`: `v`.
    pub fn object1(k: &str, v: Json) -> (r: Json)
        ensures
            r@ == JsonView::Object(seq![(k@, v@)]),
    {
        let ghost vv = v@;
        let mut entries: Vec<(String, Json)> = Vec::new();
        entries.push((k.to_string(), v));
        proof {
            lemma_entries_view_ext(entries@, seq![(k@, vv)]);
        }
        Json::Object(entries)
    }

    /// An object with the entries `k1`: `v1` and `k2`: `v2`, in this order.
    pub fn object2(k1: &str, v1: Json, k2: &str, v2: Json) -> (r: Json)
        ensures
            r@ == JsonView::Object(seq![(k1@, v1@), (k2@, v2@)]),
    {
        let ghost vv1 = v1@;
        let ghost vv2 = v2@;
        let mut entries: Vec<(String, Json)> = Vec::new();
        entries.push((k1.to_string(), v1));
        entries.push((k2.to_string(), v2));
        proof {
            lemma_entries_view_ext(entries@, seq![(k1@, vv1), (k2@, vv2)]);
        }
        Json::Object(entries)
    }

    /// An object with the entries `k1`: `v1`, `k2`: `v2` and `k3`: `v3`, in this order.
    pub fn object3(k1: &str, v1: Json, k2: &str, v2: Json, k3: &str, v3: Json) -> (r: Json)
        ensures
            r@ == JsonView::Object(seq![(k1@, v1@), (k2@, v2@), (k3@, v3@)]),
    {
        let ghost vv1 = v1@;
        let ghost vv2 = v2@;
        let ghost vv3 = v3@;
        let mut entries: Vec<(String, Json)> = Vec::new();
        entries.push((k1.to_string(), v1));
        entries.push((k2.to_string(), v2));
        entries.push((k3.to_string(), v3));
        proof {
            lemma_entries_view_ext(entries@, seq![(k1@, vv1), (k2@, vv2), (k3@, vv3)]);
        }
        Json::Object(entries)
    }

    /// An array with the single item `v`.
    pub fn array1(v: Json) -> (r: Json)
        ensures
            r@ == JsonView::Array(seq![v@]),
    {
        let ghost vv = v@;
        let mut items: Vec<Json> = Vec::new();
        items.push(v);
        proof {
            lemma_items_view(items@);
            assert(items_view(items@) =~= seq![vv]);
        }
        Json::Array(items)
    }

    /// An array with the items `v1` and `v2`, in this order.
    pub fn array2(v1: Json, v2: Json) -> (r: Json)
        ensures
            r@ == JsonView::Array(seq![v1@, v2@]),
    {
        let ghost vv1 = v1@;
        let ghost vv2 = v2@;
        let mut items: Vec<Json> = Vec::new();
        items.push(v1);
        items.push(v2);
        proof {
            lemma_items_view(items@);
            assert(items_view(items@) =~= seq![vv1, vv2]);
        }
        Json::Array(items)
    }

    /// The JSON number for `n`, as JSON readers classify it.
    pub fn from_i64(n: i64) -> (r: Json)
        ensures
            r@ == int_view(n),
    {
        if n < 0 {
            Json::NegInt(n)
        } else {
            Json::PosInt(n as u64)
        }
    }

    /// The member stored under `key`, when this is an object that has one.
    pub fn get(&self, key: &String) -> (r: Option<&Json>)
        ensures
            member(self@, key@) == match r {
                Some(x) => Some(x@),
                None => None,
            },
    {
        match self {
            Json::Object(entries) => {
                proof {
                    lemma_entries_view(entries@);
                }
                match find_entry(entries, key) {
                    Some(i) => {
                        proof {
                            let ev = entries_view(entries@);
                            let c = choose|k: int| first_key_at(ev, key@, k);
                            lemma_first_key_unique(ev, key@, i as int, c);
                        }
                        Some(&entries[i].1)
                    },
                    None => None,
                }
            },
            _ => None,
        }
    }

    /// Whether indexing this document by `key` reads `Null`.
    pub fn field_is_null(&self, key: &String) -> (r: bool)
        ensures
            r == (field(self@, key@) is Null),
    {
        match self.get(key) {
            Some(x) => match x {
                Json::Null => true,
                _ => false,
            },
            None => true,
        }
    }

    /// The member under `key` read as a signed 64-bit integer, when there is one that
    /// reads so.
    pub fn get_i64(&self, key: &String) -> (r: Option<i64>)
        ensures
            r == match member(self@, key@) {
                Some(x) => as_i64_spec(x),
                None => None,
            },
    {
        match self.get(key) {
            Some(x) => match x {
                Json::PosInt(n) => if *n <= 9223372036854775807u64 {
                    Some(*n as i64)
                } else {
                    None
                },
                Json::NegInt(n) => Some(*n),
                _ => None,
            },
            None => None,
        }
    }

    /// Sets `key` to `value`; a `Null` document becomes an object first.
    pub fn set_field(&mut self, key: String, value: Json)
        requires
            takes_fields(old(self)@),
        ensures
            final(self)@ == with_field(old(self)@, key@, value@),
    {
        let ghost kv = key@;
        let ghost vv = value@;
        match self {
            Json::Object(entries) => {
                let ghost before = entries@;
                proof {
                    lemma_entries_view(before);
                }
                match find_entry(entries, &key) {
                    Some(i) => {
                        entries.set(i, (key, value));
                        proof {
                            let ev = entries_view(before);
                            let c = choose|k: int| first_key_at(ev, kv, k);
                            lemma_first_key_unique(ev, kv, i as int, c);
                            lemma_entries_view_ext(entries@, ev.update(i as int, (kv, vv)));
                        }
                    },
                    None => {
                        entries.push((key, value));
                        proof {
                            let ev = entries_view(before);
                            lemma_entries_view_ext(entries@, ev.push((kv, vv)));
                        }
                    },
                }
            },
            _ => {
                let mut entries: Vec<(String, Json)> = Vec::new();
                entries.push((key, value));
                proof {
                    lemma_entries_view_ext(entries@, Seq::<(Seq<char>, JsonView)>::empty().push((kv, vv)));
                }
                *self = Json::Object(entries);
            },
        }
    }
}

} // verus!
