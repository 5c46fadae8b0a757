//! Vertex layouts: where each attribute of a vertex stands in its buffer.

use vstd::prelude::*;

verus! {

/// The type of a vertex attribute.
#[derive(Clone, Copy, Debug, PartialEq, Eq, Structural)]
pub enum VertexFormat {
    Float2,
    Float3,
    Float4,
    Uint,
}

/// Whether a buffer advances once per vertex or once per instance.
#[derive(Clone, Copy, Debug, PartialEq, Eq, Structural)]
pub enum InputStepMode {
    Vertex,
    Instance,
}

/// One attribute of a vertex.
#[derive(Clone, Copy, Debug, PartialEq, Eq, Structural)]
pub struct VertexAttributeDescriptor {
    /// Where the attribute starts in the vertex, in bytes.
    pub offset: u64,
    pub format: VertexFormat,
    pub shader_location: u32,
}

/// The size of an attribute in bytes.
pub open spec fn format_size(format: VertexFormat) -> nat {
    match format {
        VertexFormat::Float2 => 8,
        VertexFormat::Float3 => 12,
        VertexFormat::Float4 => 16,
        VertexFormat::Uint => 4,
    }
}

/// That the attributes fill a vertex of `stride` bytes without gap or
/// overlap, and take consecutive shader locations.
pub open spec fn packed(attributes: Seq<VertexAttributeDescriptor>, stride: nat) -> bool {
    &&& attributes.len() > 0
    &&& attributes[0].offset == 0
    &&& forall|k: int|
        0 <= k < attributes.len() - 1 ==> {
            &&& (#[trigger] attributes[k + 1]).offset == attributes[k].offset + format_size(attributes[k].format)
            &&& attributes[k + 1].shader_location == attributes[k].shader_location + 1
        }
    &&& stride == attributes.last().offset + format_size(attributes.last().format)
}

/// A type whose values stand in a vertex buffer.
pub trait VertexBuffer {
    /// The attributes of one vertex.
    spec fn attributes() -> Seq<VertexAttributeDescriptor>;

    /// Bytes from one vertex to the next.
    spec fn stride() -> nat;

    spec fn step_mode() -> InputStepMode;

    /// The attributes fill the vertex exactly.
    proof fn lemma_packed()
        ensures
            packed(Self::attributes(), Self::stride()),
    ;

    fn get_attributes() -> (attributes: Vec<VertexAttributeDescriptor>)
        ensures
            attributes@ == Self::attributes(),
    ;
}

} // verus!
