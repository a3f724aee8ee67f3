//! A face (polygon) of the mesh: an ordered list of vertex indices.

use vstd::prelude::*;

verus! {

/// A face (polygon) in `BlockotGeometry`.
/// Supports n-gons (triangles, quads, or more vertices).
#[verifier::ext_equal]
#[derive(Debug, Clone)]
pub struct Face {
    /// Indices into `BlockotGeometry::vertices`
    pub vertex_indices: Vec<usize>,
}

impl Face {
    /// Create a new face from vertex indices
    pub fn new(indices: Vec<usize>) -> (r: Face)
        ensures
            r.vertex_indices@ == indices@,
    {
        Face { vertex_indices: indices }
    }

    /// Create a quad face (4 vertices)
    pub fn quad(a: usize, b: usize, c: usize, d: usize) -> (r: Face)
        ensures
            r.vertex_indices@ == seq![a, b, c, d],
    {
        let indices = vec![a, b, c, d];
        assert(indices@ =~= seq![a, b, c, d]);
        Face { vertex_indices: indices }
    }

    /// Create a triangle face (3 vertices)
    pub fn triangle(a: usize, b: usize, c: usize) -> (r: Face)
        ensures
            r.vertex_indices@ == seq![a, b, c],
    {
        let indices = vec![a, b, c];
        assert(indices@ =~= seq![a, b, c]);
        Face { vertex_indices: indices }
    }

    /// Returns the number of vertices in this face
    pub fn vertex_count(&self) -> (r: usize)
        ensures
            r == self.vertex_indices@.len(),
    {
        self.vertex_indices.len()
    }

    /// Returns true if this face is a triangle
    pub fn is_triangle(&self) -> (r: bool)
        ensures
            r == (self.vertex_indices@.len() == 3),
    {
        self.vertex_indices.len() == 3
    }

    /// Returns true if this face is a quad
    pub fn is_quad(&self) -> (r: bool)
        ensures
            r == (self.vertex_indices@.len() == 4),
    {
        self.vertex_indices.len() == 4
    }
}

impl PartialEq for Face {
    fn eq(&self, other: &Face) -> (r: bool) {
        if self.vertex_indices.len() != other.vertex_indices.len() {
            return false;
        }
        let n = self.vertex_indices.len();
        let mut i: usize = 0;
        while i < n
            invariant
                i <= n,
                n == self.vertex_indices@.len(),
                n == other.vertex_indices@.len(),
                forall|j: int| 0 <= j < i ==> self.vertex_indices@[j] == other.vertex_indices@[j],
            decreases n - i,
        {
            if self.vertex_indices[i] != other.vertex_indices[i] {
                return false;
            }
            i += 1;
        }
        proof {
            assert(self.vertex_indices@ =~= other.vertex_indices@);
        }
        true
    }
}

impl vstd::std_specs::cmp::PartialEqSpecImpl for Face {
    open spec fn obeys_eq_spec() -> bool {
        true
    }

    open spec fn eq_spec(&self, other: &Face) -> bool {
        self.vertex_indices@ == other.vertex_indices@
    }
}

} // verus!
