//! The closed set of result-value shapes the graph protocol can
//! return, modeled as plain data.  Floating-point results are carried
//! as their IEEE 754 bit patterns; the caller that decodes the wire
//! format supplies the bits, and the caller that renders JSON text
//! turns them back into numbers.
use vstd::prelude::*;

verus! {

/// Identifier of a vertex or an edge.
#[derive(Debug, Clone, PartialEq, Eq)]
pub enum GraphId {
    Int32(i32),
    Int64(i64),
    Text(String),
}

/// The traversal-step tokens that can appear as map keys.
#[derive(Debug, Clone, Copy, PartialEq, Eq, Structural)]
pub enum StepTag {
    Id,
    Key,
    Label,
    Value,
}

/// The traversal directions that can appear as map keys.
#[derive(Debug, Clone, Copy, PartialEq, Eq, Structural)]
pub enum DirectionTag {
    Out,
    In,
}

/// A key of a result map.  Every variant reduces to a JSON object key
/// at projection time.
#[derive(Debug, Clone, PartialEq, Eq)]
pub enum GraphKey {
    Text(String),
    /// A protocol token; the field is its textual value.
    Token(String),
    /// A vertex used as a key, kept by its identifier.
    VertexRef(GraphId),
    /// An edge used as a key, kept by its identifier.
    EdgeRef(GraphId),
    Step(StepTag),
    Direction(DirectionTag),
}

/// The full result-value space, a closed recursive sum.  The `Other`
/// arm carries a textual rendering of any protocol value that is not
/// modeled here, so that projection stays total; that rendering is an
/// intentional information-loss boundary.
#[derive(Debug, PartialEq)]
pub enum GraphValue {
    Null,
    Bool(bool),
    Int32(i32),
    Int64(i64),
    /// IEEE 754 bits of a 32-bit float result.
    Float(u32),
    /// IEEE 754 bits of a 64-bit float result.
    Double(u64),
    Text(String),
    List(Vec<GraphValue>),
    /// An ordered mapping in first-seen order.  Entries whose keys
    /// stringify alike are allowed; projection lets later ones
    /// overwrite earlier ones.
    Mapping(Vec<(GraphKey, GraphValue)>),
    Vertex { id: GraphId, label: String },
    Edge { id: GraphId, label: String, in_v: GraphId, out_v: GraphId },
    Path(Vec<GraphValue>),
    /// The canonical textual form of a UUID result.
    Uuid(String),
    /// Epoch milliseconds of a date result.
    Date(i64),
    /// Textual rendering of an unmodeled value.
    Other(String),
}

impl StepTag {
    /// The textual tag name, as JSON object keys carry it.
    pub open spec fn spec_name(self) -> Seq<char> {
        match self {
            StepTag::Id => "Id"@,
            StepTag::Key => "Key"@,
            StepTag::Label => "Label"@,
            StepTag::Value => "Value"@,
        }
    }

    pub fn tag_name(&self) -> (r: &'static str)
        ensures
            r@ == self.spec_name(),
    {
        match self {
            StepTag::Id => "Id",
            StepTag::Key => "Key",
            StepTag::Label => "Label",
            StepTag::Value => "Value",
        }
    }
}

impl DirectionTag {
    /// The textual tag name, as JSON object keys carry it.
    pub open spec fn spec_name(self) -> Seq<char> {
        match self {
            DirectionTag::Out => "Out"@,
            DirectionTag::In => "In"@,
        }
    }

    pub fn tag_name(&self) -> (r: &'static str)
        ensures
            r@ == self.spec_name(),
    {
        match self {
            DirectionTag::Out => "Out",
            DirectionTag::In => "In",
        }
    }
}

} // verus!
