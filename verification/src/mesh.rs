use vstd::prelude::*;

verus! {

/// How many arc segments a filled circle is tessellated into.
pub const CIRCLE_DIVISIONS: u16 = 20;

/// An index buffer paired with the number of vertices it may refer to.
///
/// A draw call that submits `vertex_count` vertices together with `indices`
/// is well formed exactly when every index points at one of those vertices.
pub struct IndexMesh {
    pub vertex_count: u16,
    pub indices: Vec<u16>,
}

impl IndexMesh {
    /// Every index points at an existing vertex.
    pub open spec fn well_formed(self) -> bool {
        forall|j: int|
            0 <= j < self.indices@.len() ==> (self.indices@[j] as int) < self.vertex_count as int
    }

    /// The two triangles of an axis-aligned quad: vertices are listed
    /// top-left, top-right, bottom-right, bottom-left, and the triangles
    /// are (0, 1, 2) and (0, 2, 3).
    pub fn quad() -> (r: IndexMesh)
        ensures
            r.vertex_count == 4,
            r.indices@ == seq![0u16, 1u16, 2u16, 0u16, 2u16, 3u16],
            r.well_formed(),
    {
        let mut indices: Vec<u16> = Vec::new();
        indices.push(0);
        indices.push(1);
        indices.push(2);
        indices.push(0);
        indices.push(2);
        indices.push(3);
        proof {
            assert(indices@ =~= seq![0u16, 1u16, 2u16, 0u16, 2u16, 3u16]);
        }
        IndexMesh { vertex_count: 4, indices }
    }

    /// The two triangles of a thick line segment: vertices are the segment's
    /// endpoints each offset to both sides of the line, and the triangles
    /// are (0, 1, 2) and (2, 1, 3).
    pub fn thick_line() -> (r: IndexMesh)
        ensures
            r.vertex_count == 4,
            r.indices@ == seq![0u16, 1u16, 2u16, 2u16, 1u16, 3u16],
            r.well_formed(),
    {
        let mut indices: Vec<u16> = Vec::new();
        indices.push(0);
        indices.push(1);
        indices.push(2);
        indices.push(2);
        indices.push(1);
        indices.push(3);
        proof {
            assert(indices@ =~= seq![0u16, 1u16, 2u16, 2u16, 1u16, 3u16]);
        }
        IndexMesh { vertex_count: 4, indices }
    }

    /// A triangle fan over `divisions` arc segments, as a filled circle uses:
    /// vertex 0 is the centre, vertices 1 through `divisions + 1` lie on the
    /// rim, and segment `k` is the triangle (0, k + 1, k + 2), so position
    /// `j` of the index buffer holds `fan_index(j)`.
    pub fn fan(divisions: u16) -> (r: IndexMesh)
        requires
            divisions <= 0xFFFD,
        ensures
            r.vertex_count as int == fan_vertex_count(divisions as int),
            r.indices@.len() == 3 * divisions as int,
            forall|j: int| 0 <= j < r.indices@.len() ==> (#[trigger] r.indices@[j]) as int
                == fan_index(j),
            r.well_formed(),
    {
        let mut indices: Vec<u16> = Vec::new();
        let mut i: u16 = 0;
        while i < divisions
            invariant
                divisions <= 0xFFFD,
                i <= divisions,
                indices@.len() == 3 * i as int,
                forall|j: int| 0 <= j < indices@.len() ==> (#[trigger] indices@[j]) as int
                    == fan_index(j),
            decreases divisions - i,
        {
            indices.push(0);
            indices.push(i + 1);
            indices.push(i + 2);
            proof {
                let w = 3 * i as int;
                assert(w % 3 == 0 && w / 3 == i as int);
                assert((w + 1) % 3 == 1 && (w + 1) / 3 == i as int);
                assert((w + 2) % 3 == 2 && (w + 2) / 3 == i as int);
            }
            i = i + 1;
        }
        proof {
            assert forall|j: int| 0 <= j < indices@.len() implies (indices@[j] as int) < (
            divisions + 2) as int by {
                assert(j / 3 < divisions as int && j % 3 <= 2);
            }
        }
        IndexMesh { vertex_count: divisions + 2, indices }
    }
}

/// The vertex index that position `j` of a triangle fan's index buffer holds:
/// positions come in triples, and triple `k` (positions `3k` to `3k + 2`) is
/// the triangle of the centre vertex 0 and the rim vertices `k + 1`, `k + 2`.
pub open spec fn fan_index(j: int) -> int {
    if j % 3 == 0 {
        0
    } else {
        j / 3 + j % 3
    }
}

/// Number of vertices a triangle fan over `divisions` arc segments uses:
/// one centre vertex and `divisions + 1` rim vertices.
pub open spec fn fan_vertex_count(divisions: int) -> int {
    divisions + 2
}

} // verus!
