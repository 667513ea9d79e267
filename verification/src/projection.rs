//! The total projection of result values into JSON.  Every
//! constructible [`GraphValue`] has a defined projection; nothing here
//! can fail.
use vstd::prelude::*;

use crate::json::{
    first_key_index, json_view, json_view_entries, json_view_seq, lemma_first_key_index,
    lemma_json_view_entries, lemma_json_view_seq, object_insert, object_insert_view, JsonValue,
    JsonView,
};
use crate::strfmt::{dec_int, escape_seq, push_char, push_escaped, push_i64_digits};
use crate::value::{GraphId, GraphKey, GraphValue};

verus! {

use vstd::string::StringExecFns;

/// An identifier projects as its bare scalar, with no wrapper object.
pub open spec fn spec_project_id(id: GraphId) -> JsonView {
    match id {
        GraphId::Int32(n) => JsonView::Int(n as int),
        GraphId::Int64(n) => JsonView::Int(n as int),
        GraphId::Text(s) => JsonView::Text(s@),
    }
}

/// The scalar rendering of an identifier inside an object key: the
/// decimal digits of an integer id, or the quoted and escaped JSON
/// string literal of a textual id.
pub open spec fn spec_id_rendering(id: GraphId) -> Seq<char> {
    match id {
        GraphId::Int32(n) => dec_int(n as int),
        GraphId::Int64(n) => dec_int(n as int),
        GraphId::Text(s) => seq!['"'] + escape_seq(s@) + seq!['"'],
    }
}

/// How each key shape reduces to a JSON object key.  Total: every key
/// has a string form.
pub open spec fn spec_key_string(k: GraphKey) -> Seq<char> {
    match k {
        GraphKey::Text(s) => s@,
        GraphKey::Token(t) => t@,
        GraphKey::VertexRef(id) => "vertex:"@ + spec_id_rendering(id),
        GraphKey::EdgeRef(id) => "edge:"@ + spec_id_rendering(id),
        GraphKey::Step(t) => t.spec_name(),
        GraphKey::Direction(d) => d.spec_name(),
    }
}

/// The projection itself: the JSON shape of every result value.
pub open spec fn spec_project(v: GraphValue) -> JsonView
    decreases v,
{
    match v {
        GraphValue::Null => JsonView::Null,
        GraphValue::Bool(b) => JsonView::Bool(b),
        GraphValue::Int32(n) => JsonView::Int(n as int),
        GraphValue::Int64(n) => JsonView::Int(n as int),
        GraphValue::Float(bits) => JsonView::Float(bits),
        GraphValue::Double(bits) => JsonView::Double(bits),
        GraphValue::Text(s) => JsonView::Text(s@),
        GraphValue::List(items) => JsonView::Array(spec_project_seq(items@)),
        GraphValue::Mapping(pairs) => JsonView::Object(
            spec_project_entries(pairs@, Seq::empty()),
        ),
        GraphValue::Vertex { id, label } => JsonView::Object(
            seq![
                ("type"@, JsonView::Text("vertex"@)),
                ("id"@, spec_project_id(id)),
                ("label"@, JsonView::Text(label@)),
            ],
        ),
        GraphValue::Edge { id, label, in_v, out_v } => JsonView::Object(
            seq![
                ("type"@, JsonView::Text("edge"@)),
                ("id"@, spec_project_id(id)),
                ("label"@, JsonView::Text(label@)),
                ("inV"@, spec_project_id(in_v)),
                ("outV"@, spec_project_id(out_v)),
            ],
        ),
        GraphValue::Path(objects) => JsonView::Object(
            seq![
                ("type"@, JsonView::Text("path"@)),
                ("objects"@, JsonView::Array(spec_project_seq(objects@))),
            ],
        ),
        GraphValue::Uuid(s) => JsonView::Text(s@),
        GraphValue::Date(ms) => JsonView::Int(ms as int),
        GraphValue::Other(s) => JsonView::Text(s@),
    }
}

/// Projection of a sequence of values, in order.
pub open spec fn spec_project_seq(s: Seq<GraphValue>) -> Seq<JsonView>
    decreases s,
{
    if s.len() == 0 {
        Seq::empty()
    } else {
        seq![spec_project(s[0])] + spec_project_seq(s.drop_first())
    }
}

/// Projection of map entries: each key stringified, each value
/// projected, inserted left to right so that a later entry under an
/// equal key overwrites the earlier one in place.
pub open spec fn spec_project_entries(
    pairs: Seq<(GraphKey, GraphValue)>,
    acc: Seq<(Seq<char>, JsonView)>,
) -> Seq<(Seq<char>, JsonView)>
    decreases pairs,
{
    if pairs.len() == 0 {
        acc
    } else {
        spec_project_entries(
            pairs.drop_first(),
            object_insert_view(acc, spec_key_string(pairs[0].0), spec_project(pairs[0].1)),
        )
    }
}

/// The sequence projection is pointwise.
pub proof fn lemma_spec_project_seq(s: Seq<GraphValue>)
    ensures
        spec_project_seq(s).len() == s.len(),
        forall|i: int| 0 <= i < s.len() ==> spec_project_seq(s)[i] == spec_project(s[i]),
    decreases s.len(),
{
    if s.len() > 0 {
        lemma_spec_project_seq(s.drop_first());
    }
}

/// Order preservation for lists: a list projects to the array of its
/// items' projections, index by index, in the original order.
pub proof fn lemma_project_list_order(items: Vec<GraphValue>)
    ensures
        spec_project(GraphValue::List(items)) is Array,
        spec_project(GraphValue::List(items))->Array_0.len() == items@.len(),
        forall|i: int|
            0 <= i < items@.len() ==> spec_project(GraphValue::List(items))->Array_0[i]
                == spec_project(items@[i]),
{
    lemma_spec_project_seq(items@);
}

/// Order preservation for paths: a path projects to an object whose
/// `objects` field lists its objects' projections in traversal order.
pub proof fn lemma_project_path_order(objects: Vec<GraphValue>)
    ensures
        spec_project(GraphValue::Path(objects)) is Object,
        spec_project(GraphValue::Path(objects))->Object_0 == seq![
            ("type"@, JsonView::Text("path"@)),
            ("objects"@, JsonView::Array(spec_project_seq(objects@))),
        ],
        spec_project_seq(objects@).len() == objects@.len(),
        forall|i: int|
            0 <= i < objects@.len() ==> spec_project_seq(objects@)[i] == spec_project(
                objects@[i],
            ),
{
    lemma_spec_project_seq(objects@);
}

proof fn lemma_entries_distinct(
    pairs: Seq<(GraphKey, GraphValue)>,
    acc: Seq<(Seq<char>, JsonView)>,
)
    requires
        forall|i: int, j: int|
            0 <= i < j < pairs.len() ==> spec_key_string(#[trigger] pairs[i].0) != spec_key_string(
                #[trigger] pairs[j].0,
            ),
        forall|i: int, j: int|
            0 <= i < pairs.len() && 0 <= j < acc.len() ==> (#[trigger] acc[j]).0
                != spec_key_string(#[trigger] pairs[i].0),
    ensures
        spec_project_entries(pairs, acc).len() == acc.len() + pairs.len(),
        forall|j: int|
            0 <= j < acc.len() ==> #[trigger] spec_project_entries(pairs, acc)[j] == acc[j],
        forall|m: int|
            acc.len() <= m < acc.len() + pairs.len() ==> #[trigger] spec_project_entries(
                pairs,
                acc,
            )[m] == (
                spec_key_string(pairs[m - acc.len()].0),
                spec_project(pairs[m - acc.len()].1),
            ),
    decreases pairs.len(),
{
    if pairs.len() > 0 {
        let k0 = spec_key_string(pairs[0].0);
        let v0 = spec_project(pairs[0].1);
        lemma_first_key_index(acc, k0);
        if first_key_index(acc, k0) >= 0 {
            assert(acc[first_key_index(acc, k0)].0 == k0);
            assert(false);
        }
        assert(object_insert_view(acc, k0, v0) == acc.push((k0, v0)));
        let acc2 = acc.push((k0, v0));
        let rest = pairs.drop_first();
        assert forall|i: int, j: int|
            0 <= i < j < rest.len() implies spec_key_string(#[trigger] rest[i].0)
            != spec_key_string(#[trigger] rest[j].0) by {
            assert(rest[i] == pairs[i + 1]);
            assert(rest[j] == pairs[j + 1]);
        }
        assert forall|i: int, j: int|
            0 <= i < rest.len() && 0 <= j < acc2.len() implies (#[trigger] acc2[j]).0
            != spec_key_string(#[trigger] rest[i].0) by {
            assert(rest[i] == pairs[i + 1]);
            if j < acc.len() {
                assert(acc2[j] == acc[j]);
            } else {
                assert(acc2[j] == (k0, v0));
            }
        }
        lemma_entries_distinct(rest, acc2);
        assert(spec_project_entries(pairs, acc) == spec_project_entries(rest, acc2));
        assert forall|m: int|
            acc.len() <= m < acc.len() + pairs.len() implies #[trigger] spec_project_entries(
            pairs,
            acc,
        )[m] == (spec_key_string(pairs[m - acc.len()].0), spec_project(pairs[m - acc.len()].1)) by {
            if m == acc.len() {
                assert(spec_project_entries(rest, acc2)[m] == acc2[m]);
                assert(acc2[acc.len() as int] == (k0, v0));
            } else {
                assert(spec_project_entries(rest, acc2)[m] == (
                    spec_key_string(rest[m - acc2.len()].0),
                    spec_project(rest[m - acc2.len()].1),
                ));
                assert(rest[m - acc2.len()] == pairs[m - acc.len()]);
            }
        }
    }
}

/// Map key reduction: when the keys of a map stringify to pairwise
/// distinct names, the map projects to the object that binds, in
/// first-seen order, each stringified key to the projection of its
/// value.  (When two keys stringify alike, the later entry overwrites
/// the earlier one in place, as `object_insert_view` states.)
pub proof fn lemma_project_map_order(pairs: Vec<(GraphKey, GraphValue)>)
    requires
        forall|i: int, j: int|
            0 <= i < j < pairs@.len() ==> spec_key_string(#[trigger] pairs@[i].0)
                != spec_key_string(#[trigger] pairs@[j].0),
    ensures
        spec_project(GraphValue::Mapping(pairs)) is Object,
        spec_project(GraphValue::Mapping(pairs))->Object_0.len() == pairs@.len(),
        forall|i: int|
            0 <= i < pairs@.len() ==> spec_project(GraphValue::Mapping(pairs))->Object_0[i] == (
                spec_key_string(pairs@[i].0),
                spec_project(pairs@[i].1),
            ),
{
    let es = spec_project_entries(pairs@, Seq::<(Seq<char>, JsonView)>::empty());
    lemma_entries_distinct(pairs@, Seq::empty());
    assert(spec_project(GraphValue::Mapping(pairs))->Object_0 == es);
    assert forall|i: int|
        0 <= i < pairs@.len() implies spec_project(GraphValue::Mapping(pairs))->Object_0[i] == (
        spec_key_string(pairs@[i].0),
        spec_project(pairs@[i].1),
    ) by {
        assert(es[i] == (
            spec_key_string(pairs@[i - Seq::<(Seq<char>, JsonView)>::empty().len()].0),
            spec_project(pairs@[i - Seq::<(Seq<char>, JsonView)>::empty().len()].1),
        ));
    }
}

pub fn project_id(id: &GraphId) -> (r: JsonValue)
    ensures
        r@ == spec_project_id(*id),
{
    match id {
        GraphId::Int32(n) => JsonValue::Int(*n as i64),
        GraphId::Int64(n) => JsonValue::Int(*n),
        GraphId::Text(s) => JsonValue::Text(s.clone()),
    }
}

fn push_id_rendering(s: &mut String, id: &GraphId)
    ensures
        final(s)@ == old(s)@ + spec_id_rendering(*id),
{
    match id {
        GraphId::Int32(n) => push_i64_digits(s, *n as i64),
        GraphId::Int64(n) => push_i64_digits(s, *n),
        GraphId::Text(t) => {
            push_char(s, '"');
            push_escaped(s, t.as_str());
            push_char(s, '"');
            proof {
                assert(final(s)@ =~= old(s)@ + spec_id_rendering(*id));
            }
        },
    }
}

/// Reduces a map key to its JSON object-key string.  Total: no key
/// shape is rejected.
pub fn stringify_key(k: &GraphKey) -> (r: String)
    ensures
        r@ == spec_key_string(*k),
{
    match k {
        GraphKey::Text(s) => s.clone(),
        GraphKey::Token(t) => t.clone(),
        GraphKey::VertexRef(id) => {
            let mut s = String::from_str("vertex:");
            push_id_rendering(&mut s, id);
            s
        },
        GraphKey::EdgeRef(id) => {
            let mut s = String::from_str("edge:");
            push_id_rendering(&mut s, id);
            s
        },
        GraphKey::Step(t) => String::from_str(t.tag_name()),
        GraphKey::Direction(d) => String::from_str(d.tag_name()),
    }
}

fn project_list(items: &Vec<GraphValue>) -> (r: Vec<JsonValue>)
    ensures
        json_view_seq(r@) == spec_project_seq(items@),
    decreases items@,
{
    let mut out: Vec<JsonValue> = Vec::new();
    let mut i: usize = 0;
    while i < items.len()
        invariant
            i <= items@.len(),
            out@.len() == i,
            forall|j: int| 0 <= j < i ==> json_view(#[trigger] out@[j]) == spec_project(items@[j]),
        decreases items@.len() - i,
    {
        proof {
            assert(decreases_to!(items@ => items@[i as int]));
        }
        let x = project(&items[i]);
        out.push(x);
        i = i + 1;
    }
    proof {
        lemma_json_view_seq(out@);
        lemma_spec_project_seq(items@);
        assert(json_view_seq(out@) =~= spec_project_seq(items@));
    }
    out
}

/// Projects every result-value shape into JSON, as the mapping
/// [`spec_project`] states.  Total and pure: no input is rejected and
/// nothing can fail; an unmodeled value degrades to its textual
/// rendering.
pub fn project(v: &GraphValue) -> (r: JsonValue)
    ensures
        r@ == spec_project(*v),
    decreases *v,
{
    match v {
        GraphValue::Null => JsonValue::Null,
        GraphValue::Bool(b) => JsonValue::Bool(*b),
        GraphValue::Int32(n) => JsonValue::Int(*n as i64),
        GraphValue::Int64(n) => JsonValue::Int(*n),
        GraphValue::Float(bits) => JsonValue::Float(*bits),
        GraphValue::Double(bits) => JsonValue::Double(*bits),
        GraphValue::Text(s) => JsonValue::Text(s.clone()),
        GraphValue::List(items) => {
            proof {
                assert(decreases_to!(*v => *items));
                assert(decreases_to!(*items => items@));
            }
            JsonValue::Array(project_list(items))
        },
        GraphValue::Mapping(pairs) => {
            let mut obj: Vec<(String, JsonValue)> = Vec::new();
            let mut i: usize = 0;
            proof {
                assert(pairs@.skip(0) =~= pairs@);
            }
            while i < pairs.len()
                invariant
                    i <= pairs@.len(),
                    decreases_to!(*v => pairs@),
                    spec_project_entries(pairs@.skip(i as int), json_view_entries(obj@))
                        == spec_project_entries(pairs@, Seq::empty()),
                decreases pairs@.len() - i,
            {
                proof {
                    assert(decreases_to!(pairs@ => pairs@[i as int]));
                    assert(decreases_to!(pairs@[i as int] => pairs@[i as int].1));
                }
                let pair = &pairs[i];
                let key = stringify_key(&pair.0);
                let val = project(&pair.1);
                let ghost acc = json_view_entries(obj@);
                object_insert(&mut obj, key, val);
                proof {
                    let rest = pairs@.skip(i as int);
                    assert(rest[0] == pairs@[i as int]);
                    assert(rest.drop_first() =~= pairs@.skip(i as int + 1));
                    assert(spec_project_entries(rest, acc) == spec_project_entries(
                        rest.drop_first(),
                        object_insert_view(
                            acc,
                            spec_key_string(pairs@[i as int].0),
                            spec_project(pairs@[i as int].1),
                        ),
                    ));
                }
                i = i + 1;
            }
            proof {
                assert(pairs@.skip(pairs@.len() as int) =~= Seq::<(GraphKey, GraphValue)>::empty());
            }
            JsonValue::Object(obj)
        },
        GraphValue::Vertex { id, label } => {
            let mut obj: Vec<(String, JsonValue)> = Vec::new();
            obj.push((String::from_str("type"), JsonValue::Text(String::from_str("vertex"))));
            obj.push((String::from_str("id"), project_id(id)));
            obj.push((String::from_str("label"), JsonValue::Text(label.clone())));
            proof {
                lemma_json_view_entries(obj@);
                assert(json_view_entries(obj@) =~= spec_project(*v)->Object_0);
            }
            JsonValue::Object(obj)
        },
        GraphValue::Edge { id, label, in_v, out_v } => {
            let mut obj: Vec<(String, JsonValue)> = Vec::new();
            obj.push((String::from_str("type"), JsonValue::Text(String::from_str("edge"))));
            obj.push((String::from_str("id"), project_id(id)));
            obj.push((String::from_str("label"), JsonValue::Text(label.clone())));
            obj.push((String::from_str("inV"), project_id(in_v)));
            obj.push((String::from_str("outV"), project_id(out_v)));
            proof {
                lemma_json_view_entries(obj@);
                assert(json_view_entries(obj@) =~= spec_project(*v)->Object_0);
            }
            JsonValue::Object(obj)
        },
        GraphValue::Path(objects) => {
            proof {
                assert(decreases_to!(*v => *objects));
                assert(decreases_to!(*objects => objects@));
            }
            let projected = project_list(objects);
            let mut obj: Vec<(String, JsonValue)> = Vec::new();
            obj.push((String::from_str("type"), JsonValue::Text(String::from_str("path"))));
            obj.push((String::from_str("objects"), JsonValue::Array(projected)));
            proof {
                lemma_json_view_entries(obj@);
                assert(json_view_entries(obj@) =~= spec_project(*v)->Object_0);
            }
            JsonValue::Object(obj)
        },
        GraphValue::Uuid(s) => JsonValue::Text(s.clone()),
        GraphValue::Date(ms) => JsonValue::Int(*ms),
        GraphValue::Other(s) => JsonValue::Text(s.clone()),
    }
}

} // verus!
