//! Mesh vertices and the memory layout of vertex buffers.

use vstd::prelude::*;
use crate::scalar::Scalar;

verus! {

/// One corner of a mesh, as it is uploaded for drawing and kept for picking.
#[derive(Clone, Copy, Debug)]
pub struct Vertex {
    /// Position in model space: x, y, z.
    pub position: [Scalar; 3],
    /// Colour: r, g, b.
    pub color: [Scalar; 3],
    /// Texture coordinates: u, v.
    pub tex_coords: [Scalar; 2],
    /// Surface normal: x, y, z.
    pub normal: [Scalar; 3],
}

/// Whether a buffer advances once per vertex or once per instance.
#[derive(Clone, Copy, Debug, PartialEq, Eq, Structural)]
pub enum VertexStepMode {
    Vertex,
    Instance,
}

/// The type of one attribute: a vector of two, three or four 32-bit numbers.
#[derive(Clone, Copy, Debug, PartialEq, Eq, Structural)]
pub enum VertexFormat {
    Float32x2,
    Float32x3,
    Float32x4,
}

/// One attribute of a buffer element: where it starts, what it holds, and
/// the shader input it feeds.
#[derive(Clone, Copy, Debug, PartialEq, Eq, Structural)]
pub struct VertexAttribute {
    pub offset: u64,
    pub shader_location: u32,
    pub format: VertexFormat,
}

/// How the elements of a vertex buffer are laid out in memory.
#[derive(Clone, Debug)]
pub struct VertexBufferLayout {
    /// Bytes from one element to the next.
    pub array_stride: u64,
    pub step_mode: VertexStepMode,
    pub attributes: Vec<VertexAttribute>,
}

impl VertexFormat {
    /// Bytes that an attribute of this format takes.
    pub open spec fn size_spec(self) -> u64 {
        match self {
            VertexFormat::Float32x2 => 8,
            VertexFormat::Float32x3 => 12,
            VertexFormat::Float32x4 => 16,
        }
    }

    /// Bytes that an attribute of this format takes.
    #[verifier::when_used_as_spec(size_spec)]
    pub fn size(self) -> (bytes: u64)
        ensures
            bytes == self.size_spec(),
    {
        match self {
            VertexFormat::Float32x2 => 8,
            VertexFormat::Float32x3 => 12,
            VertexFormat::Float32x4 => 16,
        }
    }
}

/// The attributes follow one another without gap or overlap, starting at
/// offset `start`, feed consecutive shader inputs from `first_location` on,
/// and end at offset `end`.
pub open spec fn packed(
    attributes: Seq<VertexAttribute>,
    start: int,
    first_location: int,
    end: int,
) -> bool
    decreases attributes.len(),
{
    if attributes.len() == 0 {
        start == end
    } else {
        &&& attributes[0].offset == start
        &&& attributes[0].shader_location == first_location
        &&& packed(
            attributes.drop_first(),
            start + attributes[0].format.size(),
            first_location + 1,
            end,
        )
    }
}

impl VertexBufferLayout {
    /// The attributes fill each element exactly, in order, and feed the
    /// shader inputs `first_location`, `first_location + 1`, and so on.
    pub open spec fn fills_stride(self, first_location: int) -> bool {
        packed(self.attributes@, 0, first_location, self.array_stride as int)
    }
}

impl Vertex {
    /// Layout of a buffer of vertices: position, colour, texture coordinates
    /// and normal, one after the other, at shader inputs 0 to 3.
    pub fn desc() -> (layout: VertexBufferLayout)
        ensures
            layout.array_stride == 44,
            layout.step_mode == VertexStepMode::Vertex,
            layout.attributes@ == seq![
                VertexAttribute { offset: 0, shader_location: 0, format: VertexFormat::Float32x3 },
                VertexAttribute { offset: 12, shader_location: 1, format: VertexFormat::Float32x3 },
                VertexAttribute { offset: 24, shader_location: 2, format: VertexFormat::Float32x2 },
                VertexAttribute { offset: 32, shader_location: 3, format: VertexFormat::Float32x3 },
            ],
            layout.fills_stride(0),
    {
        let mut attributes: Vec<VertexAttribute> = Vec::new();
        attributes.push(
            VertexAttribute { offset: 0, shader_location: 0, format: VertexFormat::Float32x3 },
        );
        attributes.push(
            VertexAttribute { offset: 12, shader_location: 1, format: VertexFormat::Float32x3 },
        );
        attributes.push(
            VertexAttribute { offset: 24, shader_location: 2, format: VertexFormat::Float32x2 },
        );
        attributes.push(
            VertexAttribute { offset: 32, shader_location: 3, format: VertexFormat::Float32x3 },
        );
        let layout = VertexBufferLayout {
            array_stride: 44,
            step_mode: VertexStepMode::Vertex,
            attributes,
        };
        proof {
            lemma_packed_four(layout.attributes@, 0);
        }
        layout
    }
}

/// Four attributes that each start where the one before ends, at
/// consecutive shader inputs, are packed up to the end of the fourth.
pub proof fn lemma_packed_four(attributes: Seq<VertexAttribute>, first_location: int)
    requires
        attributes.len() == 4,
        attributes[1].offset == attributes[0].offset + attributes[0].format.size(),
        attributes[2].offset == attributes[1].offset + attributes[1].format.size(),
        attributes[3].offset == attributes[2].offset + attributes[2].format.size(),
        attributes[0].shader_location == first_location,
        attributes[1].shader_location == first_location + 1,
        attributes[2].shader_location == first_location + 2,
        attributes[3].shader_location == first_location + 3,
    ensures
        packed(
            attributes,
            attributes[0].offset as int,
            first_location,
            attributes[3].offset + attributes[3].format.size(),
        ),
{
    let a1 = attributes.drop_first();
    let a2 = a1.drop_first();
    let a3 = a2.drop_first();
    let a4 = a3.drop_first();
    let end = attributes[3].offset + attributes[3].format.size();
    assert(packed(a4, end, first_location + 4, end));
    assert(packed(a3, attributes[3].offset as int, first_location + 3, end));
    assert(packed(a2, attributes[2].offset as int, first_location + 2, end));
    assert(packed(a1, attributes[1].offset as int, first_location + 1, end));
}

} // verus!
