use vstd::prelude::*;

use crate::vertex::{vertex_stream, vertex_words, FloatBits, Vertex};

verus! {

/// The four bytes of a word, least significant first when `little` holds,
/// most significant first otherwise.
pub open spec fn word_bytes(w: u32, little: bool) -> Seq<u8> {
    let b0 = (w & 0xff) as u8;
    let b1 = ((w >> 8) & 0xff) as u8;
    let b2 = ((w >> 16) & 0xff) as u8;
    let b3 = ((w >> 24) & 0xff) as u8;
    if little {
        seq![b0, b1, b2, b3]
    } else {
        seq![b3, b2, b1, b0]
    }
}

/// The bytes of a list of words, one word after the other.
pub open spec fn words_bytes(ws: Seq<u32>, little: bool) -> Seq<u8>
    decreases ws.len(),
{
    if ws.len() == 0 {
        Seq::empty()
    } else {
        words_bytes(ws.drop_last(), little) + word_bytes(ws.last(), little)
    }
}

/// The two bytes of a half-word, least significant first when `little`
/// holds, most significant first otherwise.
pub open spec fn half_bytes(h: u16, little: bool) -> Seq<u8> {
    let b0 = (h & 0xff) as u8;
    let b1 = ((h >> 8) & 0xff) as u8;
    if little {
        seq![b0, b1]
    } else {
        seq![b1, b0]
    }
}

/// The bytes of a list of half-words, one after the other.
pub open spec fn halves_bytes(hs: Seq<u16>, little: bool) -> Seq<u8>
    decreases hs.len(),
{
    if hs.len() == 0 {
        Seq::empty()
    } else {
        halves_bytes(hs.drop_last(), little) + half_bytes(hs.last(), little)
    }
}

/// Relies on `bytemuck::cast_slice::<u32, u8>`: it views the words' memory as
/// bytes, which are the words in the machine's byte order; for these two
/// types it cannot fail (no alignment demand, no remainder).
#[verifier::external_body]
fn words_as_bytes(words: &[u32]) -> (r: Vec<u8>)
    ensures
        r@ == words_bytes(words@, true) || r@ == words_bytes(words@, false),
{
    bytemuck::cast_slice::<u32, u8>(words).to_vec()
}

/// Relies on `bytemuck::cast_slice::<u16, u8>`: it views the half-words'
/// memory as bytes, which are the half-words in the machine's byte order; for
/// these two types it cannot fail (no alignment demand, no remainder).
#[verifier::external_body]
fn halves_as_bytes(halves: &[u16]) -> (r: Vec<u8>)
    ensures
        r@ == halves_bytes(halves@, true) || r@ == halves_bytes(halves@, false),
{
    bytemuck::cast_slice::<u16, u8>(halves).to_vec()
}

/// Every index names one of `n` vertices.
pub open spec fn indices_in_bounds(indices: Seq<u16>, n: nat) -> bool {
    forall|i: int| 0 <= i < indices.len() ==> (#[trigger] indices[i]) < n
}

/// The indices of one triangle over the first three vertices.
pub fn triangle_indices() -> (r: Vec<u16>)
    ensures
        r@ == seq![0u16, 1u16, 2u16],
{
    let mut r: Vec<u16> = Vec::new();
    r.push(0);
    r.push(1);
    r.push(2);
    assert(r@ =~= seq![0u16, 1u16, 2u16]);
    r
}

/// Vertices and the triangle list that connects them, ready for upload:
/// every index lies within the vertices, and their count fits a `u32`.
pub struct Mesh {
    vertices: Vec<Vertex>,
    indices: Vec<u16>,
}

impl Mesh {
    #[verifier::type_invariant]
    spec fn inv(&self) -> bool {
        &&& indices_in_bounds(self.indices@, self.vertices@.len())
        &&& self.indices@.len() <= u32::MAX
    }

    /// The vertices, in order.
    pub closed spec fn spec_vertices(&self) -> Seq<Vertex> {
        self.vertices@
    }

    /// The indices, three per triangle.
    pub closed spec fn spec_indices(&self) -> Seq<u16> {
        self.indices@
    }

    /// A mesh of these vertices and indices; `None` where an index lies
    /// outside the vertices or there are more indices than a `u32` counts.
    pub fn new(vertices: Vec<Vertex>, indices: Vec<u16>) -> (r: Option<Mesh>)
        ensures
            r.is_some() <==> indices_in_bounds(indices@, vertices@.len()) && indices@.len()
                <= u32::MAX,
            r matches Some(m) ==> m.spec_vertices() == vertices@ && m.spec_indices() == indices@,
    {
        if indices.len() as u64 > u32::MAX as u64 {
            return None;
        }
        let n = vertices.len();
        let mut i: usize = 0;
        while i < indices.len()
            invariant
                n == vertices@.len(),
                i <= indices@.len(),
                forall|j: int| 0 <= j < i ==> (#[trigger] indices@[j]) < n,
            decreases indices@.len() - i,
        {
            if indices[i] as usize >= n {
                return None;
            }
            i = i + 1;
        }
        Some(Mesh { vertices, indices })
    }

    /// How many indices the mesh draws.
    pub fn num_indices(&self) -> (r: u32)
        ensures
            r == self.spec_indices().len(),
    {
        proof {
            use_type_invariant(self);
        }
        self.indices.len() as u32
    }

    /// The words of all vertices, one vertex after the other.
    fn vertex_words_of(&self) -> (r: Vec<FloatBits>)
        ensures
            r@ == vertex_stream(self.spec_vertices()),
    {
        let vs = &self.vertices;
        let mut words: Vec<FloatBits> = Vec::new();
        let mut i: usize = 0;
        while i < vs.len()
            invariant
                i <= vs@.len(),
                words@ == vertex_stream(vs@.subrange(0, i as int)),
            decreases vs@.len() - i,
        {
            let v = vs[i];
            words.push(v.position[0]);
            words.push(v.position[1]);
            words.push(v.position[2]);
            words.push(v.padding[0]);
            words.push(v.color[0]);
            words.push(v.color[1]);
            words.push(v.color[2]);
            words.push(v.color[3]);
            let ghost done = vs@.subrange(0, i + 1);
            assert(done.drop_last() =~= vs@.subrange(0, i as int));
            assert(vertex_words(v) =~= seq![
                v.position[0], v.position[1], v.position[2], v.padding[0],
                v.color[0], v.color[1], v.color[2], v.color[3],
            ]);
            i = i + 1;
            assert(words@ =~= vertex_stream(vs@.subrange(0, i as int)));
        }
        assert(vs@.subrange(0, vs@.len() as int) =~= vs@);
        words
    }

    /// The contents of the vertex buffer: every vertex's words, in order, in
    /// the machine's byte order.
    pub fn vertex_bytes(&self) -> (r: Vec<u8>)
        ensures
            r@ == words_bytes(vertex_stream(self.spec_vertices()), true) || r@ == words_bytes(
                vertex_stream(self.spec_vertices()),
                false,
            ),
    {
        let words = self.vertex_words_of();
        words_as_bytes(words.as_slice())
    }

    /// The contents of the index buffer: every index, in order, in the
    /// machine's byte order.
    pub fn index_bytes(&self) -> (r: Vec<u8>)
        ensures
            r@ == halves_bytes(self.spec_indices(), true) || r@ == halves_bytes(
                self.spec_indices(),
                false,
            ),
    {
        halves_as_bytes(self.indices.as_slice())
    }
}

} // verus!
