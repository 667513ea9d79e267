use gremlin_bridge::json::JsonValue;
use gremlin_bridge::projection::project;
use gremlin_bridge::projection::stringify_key;
use gremlin_bridge::value::DirectionTag;
use gremlin_bridge::value::GraphId;
use gremlin_bridge::value::GraphKey;
use gremlin_bridge::value::GraphValue;
use gremlin_bridge::value::StepTag;

fn text(s: &str) -> GraphValue {
    GraphValue::Text(s.to_string())
}

#[test]
fn scalar_fidelity() {
    assert_eq!(project(&GraphValue::Int32(5)), JsonValue::Int(5));
    assert_eq!(project(&text("x")), JsonValue::Text("x".to_string()));
    assert_eq!(project(&GraphValue::Null), JsonValue::Null);
    assert_eq!(project(&GraphValue::Bool(true)), JsonValue::Bool(true));
    assert_eq!(project(&GraphValue::Int64(-7)), JsonValue::Int(-7));
}

#[test]
fn float_bits_pass_through() {
    let f = 1.5f32.to_bits();
    let d = 2.25f64.to_bits();
    assert_eq!(project(&GraphValue::Float(f)), JsonValue::Float(f));
    assert_eq!(project(&GraphValue::Double(d)), JsonValue::Double(d));
}

#[test]
fn projection_is_total_over_every_variant() {
    let values = vec![
        GraphValue::Null,
        GraphValue::Bool(false),
        GraphValue::Int32(1),
        GraphValue::Int64(2),
        GraphValue::Float(0),
        GraphValue::Double(0),
        text("s"),
        GraphValue::List(vec![GraphValue::Null]),
        GraphValue::Mapping(vec![(GraphKey::Text("k".to_string()), GraphValue::Null)]),
        GraphValue::Vertex { id: GraphId::Int32(1), label: "l".to_string() },
        GraphValue::Edge {
            id: GraphId::Int32(1),
            label: "l".to_string(),
            in_v: GraphId::Int32(2),
            out_v: GraphId::Int32(3),
        },
        GraphValue::Path(vec![GraphValue::Null]),
        GraphValue::Uuid("123e4567-e89b-12d3-a456-426614174000".to_string()),
        GraphValue::Date(0),
        GraphValue::Other("TraversalMetrics(..)".to_string()),
    ];
    for v in &values {
        // Every variant, the unmodeled one included, has a projection.
        let _ = project(v);
    }
}

#[test]
fn list_order_is_preserved() {
    let v = GraphValue::List(vec![GraphValue::Int32(1), GraphValue::Int32(2)]);
    assert_eq!(
        project(&v),
        JsonValue::Array(vec![JsonValue::Int(1), JsonValue::Int(2)])
    );
}

#[test]
fn path_keeps_objects_in_order() {
    let v = GraphValue::Path(vec![text("a"), text("b")]);
    assert_eq!(
        project(&v),
        JsonValue::Object(vec![
            ("type".to_string(), JsonValue::Text("path".to_string())),
            (
                "objects".to_string(),
                JsonValue::Array(vec![
                    JsonValue::Text("a".to_string()),
                    JsonValue::Text("b".to_string()),
                ])
            ),
        ])
    );
}

#[test]
fn map_keys_reduce_to_strings() {
    let v = GraphValue::Mapping(vec![(
        GraphKey::Text("name".to_string()),
        text("Alice"),
    )]);
    assert_eq!(
        project(&v),
        JsonValue::Object(vec![(
            "name".to_string(),
            JsonValue::Text("Alice".to_string())
        )])
    );
}

#[test]
fn later_map_entry_overwrites_earlier_in_place() {
    let v = GraphValue::Mapping(vec![
        (GraphKey::Text("k".to_string()), GraphValue::Int32(1)),
        (GraphKey::Text("other".to_string()), GraphValue::Int32(5)),
        (GraphKey::Text("k".to_string()), GraphValue::Int32(2)),
    ]);
    assert_eq!(
        project(&v),
        JsonValue::Object(vec![
            ("k".to_string(), JsonValue::Int(2)),
            ("other".to_string(), JsonValue::Int(5)),
        ])
    );
}

#[test]
fn distinct_keys_that_stringify_alike_collide() {
    // A textual key and a vertex reference can reduce to the same
    // object key; the later entry wins, in the earlier position.
    let v = GraphValue::Mapping(vec![
        (GraphKey::Text("vertex:1".to_string()), GraphValue::Int32(1)),
        (GraphKey::VertexRef(GraphId::Int64(1)), GraphValue::Int32(2)),
    ]);
    assert_eq!(
        project(&v),
        JsonValue::Object(vec![("vertex:1".to_string(), JsonValue::Int(2))])
    );
}

#[test]
fn vertex_shape() {
    let v = GraphValue::Vertex { id: GraphId::Int64(5), label: "person".to_string() };
    assert_eq!(
        project(&v),
        JsonValue::Object(vec![
            ("type".to_string(), JsonValue::Text("vertex".to_string())),
            ("id".to_string(), JsonValue::Int(5)),
            ("label".to_string(), JsonValue::Text("person".to_string())),
        ])
    );
}

#[test]
fn edge_shape() {
    let v = GraphValue::Edge {
        id: GraphId::Text("e1".to_string()),
        label: "knows".to_string(),
        in_v: GraphId::Int32(2),
        out_v: GraphId::Int32(3),
    };
    assert_eq!(
        project(&v),
        JsonValue::Object(vec![
            ("type".to_string(), JsonValue::Text("edge".to_string())),
            ("id".to_string(), JsonValue::Text("e1".to_string())),
            ("label".to_string(), JsonValue::Text("knows".to_string())),
            ("inV".to_string(), JsonValue::Int(2)),
            ("outV".to_string(), JsonValue::Int(3)),
        ])
    );
}

#[test]
fn uuid_and_date_project_as_scalars() {
    let u = "123e4567-e89b-12d3-a456-426614174000";
    assert_eq!(
        project(&GraphValue::Uuid(u.to_string())),
        JsonValue::Text(u.to_string())
    );
    assert_eq!(project(&GraphValue::Date(1700000000123)), JsonValue::Int(1700000000123));
}

#[test]
fn unmodeled_value_degrades_to_text() {
    let v = GraphValue::Other("P(Eq(1))".to_string());
    assert_eq!(project(&v), JsonValue::Text("P(Eq(1))".to_string()));
}

#[test]
fn key_stringification_per_kind() {
    assert_eq!(stringify_key(&GraphKey::Text("plain".to_string())), "plain");
    assert_eq!(stringify_key(&GraphKey::Token("tok".to_string())), "tok");
    assert_eq!(stringify_key(&GraphKey::VertexRef(GraphId::Int64(1))), "vertex:1");
    assert_eq!(stringify_key(&GraphKey::EdgeRef(GraphId::Int32(-2))), "edge:-2");
    assert_eq!(stringify_key(&GraphKey::Step(StepTag::Label)), "Label");
    assert_eq!(stringify_key(&GraphKey::Direction(DirectionTag::Out)), "Out");
}

#[test]
fn textual_id_in_key_is_quoted_and_escaped() {
    assert_eq!(
        stringify_key(&GraphKey::VertexRef(GraphId::Text("a\"b".to_string()))),
        "vertex:\"a\\\"b\""
    );
    assert_eq!(
        stringify_key(&GraphKey::EdgeRef(GraphId::Text("a\nb\u{1f}".to_string()))),
        "edge:\"a\\nb\\u001f\""
    );
}
