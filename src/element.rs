use vstd::prelude::*;

use crate::vertex::{transparent_black, vertex_at, vertices_of, Position, Rgba, Vertex};

verus! {

/// A builder for a flat-coloured shape: an ordered list of points and one
/// colour, turned into vertices by `build`.
pub struct Element {
    pub shape: Vec<Position>,
    color: Rgba,
}

impl Element {
    /// The points, in order.
    pub closed spec fn spec_shape(&self) -> Seq<Position> {
        self.shape@
    }

    /// The colour that `build` will give every vertex.
    pub closed spec fn spec_color(&self) -> Rgba {
        self.color
    }

    /// An element with no points, in transparent black.
    pub fn new() -> (r: Element)
        ensures
            r.spec_shape() == Seq::<Position>::empty(),
            r.spec_color() == transparent_black(),
    {
        Element { shape: Vec::new(), color: [0, 0, 0, 0] }
    }

    /// One vertex per point, in order, each in the element's colour.
    pub fn build(self) -> (r: Vec<Vertex>)
        ensures
            r@ == vertices_of(self.spec_shape(), self.spec_color()),
    {
        let mut output: Vec<Vertex> = Vec::new();
        let n = self.shape.len();
        let mut i: usize = 0;
        while i < n
            invariant
                n == self.shape@.len(),
                i <= n,
                output@ == vertices_of(self.shape@.subrange(0, i as int), self.color),
            decreases n - i,
        {
            output.push(Vertex { position: self.shape[i], padding: [0], color: self.color });
            i = i + 1;
            assert(output@ =~= vertices_of(self.shape@.subrange(0, i as int), self.color));
        }
        assert(self.shape@.subrange(0, n as int) =~= self.shape@);
        output
    }

    /// Replaces the points; the colour is kept.
    pub fn with_shape(self, shape: Vec<Position>) -> (r: Self)
        ensures
            r.spec_shape() == shape@,
            r.spec_color() == self.spec_color(),
    {
        Element { shape, color: self.color }
    }

    /// Replaces the colour; the points are kept.
    pub fn with_color(self, color: Rgba) -> (r: Self)
        ensures
            r.spec_shape() == self.spec_shape(),
            r.spec_color() == color,
    {
        Element { shape: self.shape, color }
    }
}

/// A new element builds no vertices.
pub proof fn lemma_new_builds_empty()
    ensures
        vertices_of(Seq::<Position>::empty(), transparent_black()) == Seq::<Vertex>::empty(),
{
    assert(vertices_of(Seq::<Position>::empty(), transparent_black()) =~= Seq::<Vertex>::empty());
}

/// Building from the points `v` in colour `c` gives as many vertices as there
/// are points, each at its point and in colour `c`.
pub proof fn lemma_build_follows_shape(v: Seq<Position>, c: Rgba)
    ensures
        vertices_of(v, c).len() == v.len(),
        forall|i: int|
            0 <= i < v.len() ==> (#[trigger] vertices_of(v, c)[i]).position == v[i]
                && vertices_of(v, c)[i].color == c,
{
}

/// The colour is taken when the element is built: once `with_color(c)` has
/// been called on an element, whatever colour it had when its points were
/// set, every vertex that it builds has colour `c`, and the points are kept.
pub proof fn lemma_color_taken_at_build(shaped: Element, c: Rgba)
    ensures
        vertices_of(shaped.spec_shape(), c).len() == shaped.spec_shape().len(),
        forall|i: int|
            0 <= i < shaped.spec_shape().len() ==> #[trigger] vertices_of(shaped.spec_shape(), c)[i]
                == vertex_at(shaped.spec_shape()[i], c),
{
}

} // verus!
