//! The pentagon mesh drawn with an index buffer: five shared vertices, the
//! triangle list that fills it and the line list that outlines its triangles.

use vstd::prelude::*;

verus! {

/// The number of distinct vertices of the pentagon (A to E).
pub const PENTAGON_VERTEX_COUNT: u16 = 5;

/// The triangle list: A-B-E, B-C-E, C-D-E, each counter-clockwise.
pub open spec fn spec_pentagon_indices() -> Seq<u16> {
    seq![0u16, 1, 4, 1, 2, 4, 2, 3, 4]
}

/// The line list: the outline A-B, B-C, C-D, D-E, E-A, then the two inner
/// edges B-E and C-E.
pub open spec fn spec_pentagon_line_indices() -> Seq<u16> {
    seq![0u16, 1, 1, 2, 2, 3, 3, 4, 4, 0, 1, 4, 2, 4]
}

/// Every index refers to one of the first `vertex_count` vertices.
pub open spec fn indices_in_range(indices: Seq<u16>, vertex_count: nat) -> bool {
    forall|i: int| 0 <= i < indices.len() ==> (#[trigger] indices[i] as nat) < vertex_count
}

/// An undirected edge, written with its smaller end first.
pub open spec fn edge(a: u16, b: u16) -> (u16, u16) {
    if a <= b {
        (a, b)
    } else {
        (b, a)
    }
}

/// The edges of the triangles of a triangle list (three indices each).
pub open spec fn triangle_edges(indices: Seq<u16>) -> Set<(u16, u16)>
    decreases indices.len(),
{
    if indices.len() < 3 {
        Set::empty()
    } else {
        triangle_edges(indices.subrange(3, indices.len() as int)).insert(
            edge(indices[0], indices[1]),
        ).insert(edge(indices[1], indices[2])).insert(edge(indices[2], indices[0]))
    }
}

/// The segments of a line list (two indices each), as undirected edges.
pub open spec fn line_edges(indices: Seq<u16>) -> Set<(u16, u16)>
    decreases indices.len(),
{
    if indices.len() < 2 {
        Set::empty()
    } else {
        line_edges(indices.subrange(2, indices.len() as int)).insert(edge(indices[0], indices[1]))
    }
}

/// The CPU-side data of an indexed mesh: how many vertices it has, the
/// triangle list that fills it and the line list of its wireframe.
pub struct IndexedMesh {
    vertex_count: u16,
    indices: Vec<u16>,
    line_indices: Vec<u16>,
}

impl IndexedMesh {
    #[verifier::type_invariant]
    closed spec fn inv(self) -> bool {
        &&& indices_in_range(self.indices@, self.vertex_count as nat)
        &&& indices_in_range(self.line_indices@, self.vertex_count as nat)
        &&& self.indices@.len() % 3 == 0
        &&& self.line_indices@.len() % 2 == 0
        &&& self.indices@.len() <= u32::MAX
        &&& self.line_indices@.len() <= u32::MAX
    }

    pub closed spec fn spec_vertex_count(self) -> nat {
        self.vertex_count as nat
    }

    pub closed spec fn spec_indices(self) -> Seq<u16> {
        self.indices@
    }

    pub closed spec fn spec_line_indices(self) -> Seq<u16> {
        self.line_indices@
    }

    /// The pentagon A-E with its fill triangles and its wireframe.
    pub fn pentagon() -> (m: IndexedMesh)
        ensures
            m.spec_vertex_count() == PENTAGON_VERTEX_COUNT as nat,
            m.spec_indices() == spec_pentagon_indices(),
            m.spec_line_indices() == spec_pentagon_line_indices(),
    {
        let indices: Vec<u16> = vec![0, 1, 4, 1, 2, 4, 2, 3, 4];
        let line_indices: Vec<u16> = vec![0, 1, 1, 2, 2, 3, 3, 4, 4, 0, 1, 4, 2, 4];
        assert(indices@ == spec_pentagon_indices());
        assert(line_indices@ == spec_pentagon_line_indices());
        IndexedMesh { vertex_count: PENTAGON_VERTEX_COUNT, indices, line_indices }
    }

    /// The number of vertices the indices may refer to.
    pub fn vertex_count(&self) -> (n: u16)
        ensures
            n as nat == self.spec_vertex_count(),
    {
        self.vertex_count
    }

    /// The triangle list; every index is below the vertex count and there are
    /// whole triangles only.
    pub fn indices(&self) -> (v: &Vec<u16>)
        ensures
            v@ == self.spec_indices(),
            indices_in_range(v@, self.spec_vertex_count()),
            v@.len() % 3 == 0,
    {
        proof {
            use_type_invariant(self);
        }
        &self.indices
    }

    /// The line list; every index is below the vertex count and there are
    /// whole segments only.
    pub fn line_indices(&self) -> (v: &Vec<u16>)
        ensures
            v@ == self.spec_line_indices(),
            indices_in_range(v@, self.spec_vertex_count()),
            v@.len() % 2 == 0,
    {
        proof {
            use_type_invariant(self);
        }
        &self.line_indices
    }

    /// How many indices an indexed draw of the triangles reads.
    pub fn num_indices(&self) -> (n: u32)
        ensures
            n as nat == self.spec_indices().len(),
    {
        proof {
            use_type_invariant(self);
        }
        self.indices.len() as u32
    }

    /// How many indices an indexed draw of the wireframe reads.
    pub fn num_line_indices(&self) -> (n: u32)
        ensures
            n as nat == self.spec_line_indices().len(),
    {
        proof {
            use_type_invariant(self);
        }
        self.line_indices.len() as u32
    }
}

/// The pentagon's indices all refer to its five vertices, its triangle list
/// holds three triangles and its line list seven segments.
pub proof fn law_pentagon_well_formed()
    ensures
        indices_in_range(spec_pentagon_indices(), PENTAGON_VERTEX_COUNT as nat),
        indices_in_range(spec_pentagon_line_indices(), PENTAGON_VERTEX_COUNT as nat),
        spec_pentagon_indices().len() == 3 * 3,
        spec_pentagon_line_indices().len() == 2 * 7,
{
}

/// The seven edges of the pentagon's wireframe.
pub open spec fn pentagon_edges() -> Set<(u16, u16)> {
    set![(0u16, 1u16), (1u16, 2u16), (2u16, 3u16), (3u16, 4u16), (0u16, 4u16), (1u16, 4u16), (2u16, 4u16)]
}

proof fn lemma_pentagon_line_edges()
    ensures
        line_edges(spec_pentagon_line_indices()) == pentagon_edges(),
{
    let l = spec_pentagon_line_indices();
    let l1 = l.subrange(2, 14);
    let l2 = l1.subrange(2, 12);
    let l3 = l2.subrange(2, 10);
    let l4 = l3.subrange(2, 8);
    let l5 = l4.subrange(2, 6);
    let l6 = l5.subrange(2, 4);
    let l7 = l6.subrange(2, 2);
    assert(l1 =~= seq![1u16, 2, 2, 3, 3, 4, 4, 0, 1, 4, 2, 4]);
    assert(l2 =~= seq![2u16, 3, 3, 4, 4, 0, 1, 4, 2, 4]);
    assert(l3 =~= seq![3u16, 4, 4, 0, 1, 4, 2, 4]);
    assert(l4 =~= seq![4u16, 0, 1, 4, 2, 4]);
    assert(l5 =~= seq![1u16, 4, 2, 4]);
    assert(l6 =~= seq![2u16, 4]);
    assert(l7 =~= Seq::<u16>::empty());
    reveal_with_fuel(line_edges, 8);
    assert(line_edges(l) =~= pentagon_edges());
}

/// The wireframe draws exactly the edges of the filled triangles: the outline
/// and the inner edges between neighbouring triangles, no other segment.
pub proof fn law_wireframe_is_triangle_edges()
    ensures
        line_edges(spec_pentagon_line_indices()) == triangle_edges(spec_pentagon_indices()),
{
    let t = spec_pentagon_indices();
    assert(t.subrange(3, 9) =~= seq![1u16, 2, 4, 2, 3, 4]);
    assert(t.subrange(3, 9).subrange(3, 6) =~= seq![2u16, 3, 4]);
    assert(t.subrange(3, 9).subrange(3, 6).subrange(3, 3) =~= Seq::<u16>::empty());
    reveal_with_fuel(triangle_edges, 4);
    lemma_pentagon_line_edges();
    assert(triangle_edges(t) =~= pentagon_edges());
}

/// No segment of the wireframe is drawn twice: its seven segments are seven
/// different edges.
pub proof fn law_wireframe_segments_distinct()
    ensures
        line_edges(spec_pentagon_line_indices()).len() == spec_pentagon_line_indices().len() / 2,
{
    lemma_pentagon_line_edges();
    let e = pentagon_edges();
    let s0 = Set::<(u16, u16)>::empty();
    let s1 = s0.insert((0u16, 1u16));
    let s2 = s1.insert((1u16, 2u16));
    let s3 = s2.insert((2u16, 3u16));
    let s4 = s3.insert((3u16, 4u16));
    let s5 = s4.insert((0u16, 4u16));
    let s6 = s5.insert((1u16, 4u16));
    let s7 = s6.insert((2u16, 4u16));
    assert(s7 == e);
    assert(!s0.contains((0u16, 1u16)));
    assert(!s1.contains((1u16, 2u16)));
    assert(!s2.contains((2u16, 3u16)));
    assert(!s3.contains((3u16, 4u16)));
    assert(!s4.contains((0u16, 4u16)));
    assert(!s5.contains((1u16, 4u16)));
    assert(!s6.contains((2u16, 4u16)));
}

} // verus!
