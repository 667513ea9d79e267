//! A model of JSON documents, with a mathematical view for contracts.
//! Objects keep their entries in first-seen order; inserting under an
//! existing key overwrites the value in place.
use vstd::prelude::*;

verus! {

/// A JSON document.  Numbers distinguish the integer and the two
/// floating-point widths the protocol can produce; the floats are
/// carried as IEEE 754 bit patterns.
#[derive(Debug, PartialEq)]
pub enum JsonValue {
    Null,
    Bool(bool),
    Int(i64),
    /// IEEE 754 bits of a 32-bit float number.
    Float(u32),
    /// IEEE 754 bits of a 64-bit float number.
    Double(u64),
    Text(String),
    Array(Vec<JsonValue>),
    /// Entries in first-seen order; keys are unique when built through
    /// [`object_insert`].
    Object(Vec<(String, JsonValue)>),
}

/// The mathematical shape of a JSON document.
pub enum JsonView {
    Null,
    Bool(bool),
    Int(int),
    Float(u32),
    Double(u64),
    Text(Seq<char>),
    Array(Seq<JsonView>),
    Object(Seq<(Seq<char>, JsonView)>),
}

pub open spec fn json_view(v: JsonValue) -> JsonView
    decreases v,
{
    match v {
        JsonValue::Null => JsonView::Null,
        JsonValue::Bool(b) => JsonView::Bool(b),
        JsonValue::Int(n) => JsonView::Int(n as int),
        JsonValue::Float(bits) => JsonView::Float(bits),
        JsonValue::Double(bits) => JsonView::Double(bits),
        JsonValue::Text(s) => JsonView::Text(s@),
        JsonValue::Array(items) => JsonView::Array(json_view_seq(items@)),
        JsonValue::Object(entries) => JsonView::Object(json_view_entries(entries@)),
    }
}

pub open spec fn json_view_seq(s: Seq<JsonValue>) -> Seq<JsonView>
    decreases s,
{
    if s.len() == 0 {
        Seq::empty()
    } else {
        seq![json_view(s[0])] + json_view_seq(s.drop_first())
    }
}

pub open spec fn json_view_entries(s: Seq<(String, JsonValue)>) -> Seq<(Seq<char>, JsonView)>
    decreases s,
{
    if s.len() == 0 {
        Seq::empty()
    } else {
        seq![(s[0].0@, json_view(s[0].1))] + json_view_entries(s.drop_first())
    }
}

impl View for JsonValue {
    type V = JsonView;

    open spec fn view(&self) -> JsonView {
        json_view(*self)
    }
}

/// The two sequence views are pointwise: each element is the view of
/// the element in place.
pub proof fn lemma_json_view_seq(s: Seq<JsonValue>)
    ensures
        json_view_seq(s).len() == s.len(),
        forall|i: int| 0 <= i < s.len() ==> json_view_seq(s)[i] == json_view(s[i]),
    decreases s.len(),
{
    if s.len() > 0 {
        lemma_json_view_seq(s.drop_first());
    }
}

pub proof fn lemma_json_view_entries(s: Seq<(String, JsonValue)>)
    ensures
        json_view_entries(s).len() == s.len(),
        forall|i: int|
            0 <= i < s.len() ==> json_view_entries(s)[i] == (s[i].0@, json_view(s[i].1)),
    decreases s.len(),
{
    if s.len() > 0 {
        lemma_json_view_entries(s.drop_first());
    }
}

/// The position of the first entry keyed `k`, or `-1` when no entry
/// carries that key.
pub open spec fn first_key_index(es: Seq<(Seq<char>, JsonView)>, k: Seq<char>) -> int
    decreases es.len(),
{
    if es.len() == 0 {
        -1
    } else if es[0].0 == k {
        0
    } else {
        let rest = first_key_index(es.drop_first(), k);
        if rest < 0 {
            -1
        } else {
            rest + 1
        }
    }
}

/// Insertion in first-seen order: a new key is appended, an existing
/// key keeps its position and has its value overwritten.
pub open spec fn object_insert_view(
    es: Seq<(Seq<char>, JsonView)>,
    k: Seq<char>,
    v: JsonView,
) -> Seq<(Seq<char>, JsonView)> {
    let i = first_key_index(es, k);
    if i < 0 {
        es.push((k, v))
    } else {
        es.update(i, (k, v))
    }
}

pub proof fn lemma_first_key_index(es: Seq<(Seq<char>, JsonView)>, k: Seq<char>)
    ensures
        first_key_index(es, k) == -1 || (0 <= first_key_index(es, k) < es.len()),
        first_key_index(es, k) == -1 ==> forall|j: int| 0 <= j < es.len() ==> es[j].0 != k,
        first_key_index(es, k) >= 0 ==> es[first_key_index(es, k)].0 == k,
        first_key_index(es, k) >= 0 ==> forall|j: int|
            0 <= j < first_key_index(es, k) ==> es[j].0 != k,
    decreases es.len(),
{
    if es.len() > 0 && es[0].0 != k {
        lemma_first_key_index(es.drop_first(), k);
        assert forall|j: int| 1 <= j < es.len() implies es.drop_first()[j - 1] == es[j] by {}
    }
}

/// The characterization in the other direction: an entry keyed `k` at
/// `i` with no earlier one pins `first_key_index` to `i`.
pub proof fn lemma_first_key_index_at(es: Seq<(Seq<char>, JsonView)>, k: Seq<char>, i: int)
    requires
        0 <= i < es.len(),
        es[i].0 == k,
        forall|j: int| 0 <= j < i ==> es[j].0 != k,
    ensures
        first_key_index(es, k) == i,
    decreases es.len(),
{
    if es[0].0 != k {
        assert forall|j: int| 0 <= j < i - 1 implies es.drop_first()[j].0 != k by {
            assert(es.drop_first()[j] == es[j + 1]);
        }
        lemma_first_key_index_at(es.drop_first(), k, i - 1);
    }
}

/// Inserts `(key, val)` into the entry list: overwrites the value of
/// the first entry with an equal key, else appends at the end.
pub fn object_insert(obj: &mut Vec<(String, JsonValue)>, key: String, val: JsonValue)
    ensures
        json_view_entries(final(obj)@) == object_insert_view(
            json_view_entries(old(obj)@),
            key@,
            json_view(val),
        ),
{
    let ghost es = json_view_entries(old(obj)@);
    proof {
        lemma_json_view_entries(old(obj)@);
    }
    let n = obj.len();
    let mut i: usize = 0;
    while i < n
        invariant
            n == obj@.len(),
            i <= n,
            obj@ == old(obj)@,
            es == json_view_entries(obj@),
            es.len() == obj@.len(),
            forall|j: int| 0 <= j < es.len() ==> es[j] == (obj@[j].0@, json_view(obj@[j].1)),
            forall|j: int| 0 <= j < i ==> es[j].0 != key@,
        decreases n - i,
    {
        if obj[i].0 == key {
            obj.set(i, (key, val));
            proof {
                lemma_first_key_index_at(es, key@, i as int);
                lemma_json_view_entries(final(obj)@);
                assert(json_view_entries(final(obj)@) =~= es.update(
                    i as int,
                    (key@, json_view(val)),
                ));
            }
            return ;
        }
        i = i + 1;
    }
    obj.push((key, val));
    proof {
        lemma_first_key_index(es, key@);
        if first_key_index(es, key@) >= 0 {
            assert(es[first_key_index(es, key@)].0 == key@);
            assert(false);
        }
        lemma_json_view_entries(final(obj)@);
        assert(json_view_entries(final(obj)@) =~= es.push((key@, json_view(val))));
    }
}

} // verus!
