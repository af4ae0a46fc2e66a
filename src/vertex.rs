use vstd::prelude::*;

verus! {

/// A 32-bit IEEE-754 float, held by its bit pattern (`f32::to_bits`).
pub type FloatBits = u32;

/// A point in 3D space: x, y and z.
pub type Position = [FloatBits; 3];

/// A colour: red, green, blue and alpha.
pub type Rgba = [FloatBits; 4];

/// One vertex as the GPU reads it: a position, one word of padding so that
/// the colour starts on a 16-byte boundary, and a colour.
#[derive(Clone, Copy, Debug, PartialEq, Eq)]
pub struct Vertex {
    pub position: Position,
    pub padding: [FloatBits; 1],
    pub color: Rgba,
}

/// Transparent black: all four channels are `0.0`, whose bit pattern is zero.
pub open spec fn transparent_black() -> Rgba {
    [0u32, 0u32, 0u32, 0u32]
}

/// The vertex that carries point `p` in colour `c`; its padding is `0.0`.
pub open spec fn vertex_at(p: Position, c: Rgba) -> Vertex {
    Vertex { position: p, padding: [0u32], color: c }
}

/// The vertices for a list of points, each in the one colour `c`, in order.
pub open spec fn vertices_of(shape: Seq<Position>, c: Rgba) -> Seq<Vertex> {
    Seq::new(shape.len(), |i: int| vertex_at(shape[i], c))
}

/// The words of one vertex in the order in which they lie in memory.
pub open spec fn vertex_words(v: Vertex) -> Seq<FloatBits> {
    v.position@ + v.padding@ + v.color@
}

/// The words of a list of vertices, one vertex after the other.
pub open spec fn vertex_stream(vs: Seq<Vertex>) -> Seq<FloatBits>
    decreases vs.len(),
{
    if vs.len() == 0 {
        Seq::empty()
    } else {
        vertex_stream(vs.drop_last()) + vertex_words(vs.last())
    }
}

/// How a shader reads one attribute of a vertex.
#[derive(Clone, Copy, Debug, PartialEq, Eq, Structural)]
pub enum AttributeFormat {
    /// Three 32-bit floats.
    Float32x3,
    /// Four 32-bit floats.
    Float32x4,
}

/// One attribute of a vertex: where it starts in the vertex, in bytes, the
/// shader input that receives it, and its format.
#[derive(Clone, Copy, Debug, PartialEq, Eq, Structural)]
pub struct VertexAttribute {
    pub offset: u64,
    pub shader_location: u32,
    pub format: AttributeFormat,
}

/// How a vertex buffer is read, one vertex per step: the distance between
/// two vertices in bytes, and the attributes of each.
pub struct VertexLayout {
    pub array_stride: u64,
    pub attributes: Vec<VertexAttribute>,
}

impl Vertex {
    /// The layout of a buffer of vertices: 32 bytes per vertex (eight
    /// words), the position at byte 0 for shader input 0, the colour at
    /// byte 16 for shader input 1.
    pub fn desc() -> (r: VertexLayout)
        ensures
            r.array_stride == 32,
            r.attributes@ == seq![
                VertexAttribute { offset: 0, shader_location: 0, format: AttributeFormat::Float32x3 },
                VertexAttribute { offset: 16, shader_location: 1, format: AttributeFormat::Float32x4 },
            ],
            forall|v: Vertex|
                #![trigger vertex_words(v)]
                {
                    &&& vertex_words(v).len() * 4 == r.array_stride
                    &&& vertex_words(v).subrange(0, 3) == v.position@
                    &&& vertex_words(v).subrange(4, 8) == v.color@
                },
    {
        let mut attributes: Vec<VertexAttribute> = Vec::new();
        attributes.push(
            VertexAttribute { offset: 0, shader_location: 0, format: AttributeFormat::Float32x3 },
        );
        attributes.push(
            VertexAttribute { offset: 16, shader_location: 1, format: AttributeFormat::Float32x4 },
        );
        let r = VertexLayout { array_stride: 32, attributes };
        assert(r.attributes@ =~= seq![
            VertexAttribute { offset: 0, shader_location: 0, format: AttributeFormat::Float32x3 },
            VertexAttribute { offset: 16, shader_location: 1, format: AttributeFormat::Float32x4 },
        ]);
        assert forall|v: Vertex| {
            &&& vertex_words(v).len() * 4 == r.array_stride
            &&& vertex_words(v).subrange(0, 3) == v.position@
            &&& vertex_words(v).subrange(4, 8) == v.color@
        } by {
            assert(vertex_words(v).subrange(0, 3) =~= v.position@);
            assert(vertex_words(v).subrange(4, 8) =~= v.color@);
        }
        r
    }
}

} // verus!
