//! The geometry store: vertices, faces and a staleness flag.

use vstd::prelude::*;
use crate::face::Face;
use crate::math::{Vec3, POSITION_EPSILON};

verus! {

/// The source of truth for blockot geometry: an ordered vertex sequence,
/// an ordered face sequence and a flag that records whether the geometry
/// changed since an external consumer last rebuilt its representation.
#[derive(Debug, Clone)]
pub struct BlockotGeometry {
    /// Vertex positions, in micro-units
    pub vertices: Vec<Vec3>,

    /// Faces referencing vertex indices
    pub faces: Vec<Face>,

    /// Flag indicating if geometry has been modified since last cache rebuild
    pub dirty: bool,
}

/// Every face index points at an existing vertex. Decoding checks this;
/// mutation code assumes it and skips stale indices defensively.
pub open spec fn mesh_wf(g: BlockotGeometry) -> bool {
    forall|k: int, j: int|
        0 <= k < g.faces@.len() && 0 <= j < g.faces@[k].vertex_indices@.len()
            ==> #[trigger] g.faces@[k].vertex_indices@[j] < g.vertices@.len()
}

/// Structural equality of two face sequences, stated over the index lists.
pub open spec fn faces_eq(a: Seq<Face>, b: Seq<Face>) -> bool {
    a.len() == b.len() && forall|k: int|
        0 <= k < a.len() ==> #[trigger] a[k].vertex_indices@ == b[k].vertex_indices@
}

impl BlockotGeometry {
    /// Create a new empty geometry
    pub fn new() -> (r: BlockotGeometry)
        ensures
            r.vertices@.len() == 0,
            r.faces@.len() == 0,
            r.dirty,
    {
        BlockotGeometry { vertices: Vec::new(), faces: Vec::new(), dirty: true }
    }

    /// Create geometry with pre-allocated capacity
    pub fn with_capacity(vertex_count: usize, face_count: usize) -> (r: BlockotGeometry)
        ensures
            r.vertices@.len() == 0,
            r.faces@.len() == 0,
            r.dirty,
    {
        BlockotGeometry {
            vertices: Vec::with_capacity(vertex_count),
            faces: Vec::with_capacity(face_count),
            dirty: true,
        }
    }

    /// Returns the number of vertices
    pub fn vertex_count(&self) -> (r: usize)
        ensures
            r == self.vertices@.len(),
    {
        self.vertices.len()
    }

    /// Returns the number of faces
    pub fn face_count(&self) -> (r: usize)
        ensures
            r == self.faces@.len(),
    {
        self.faces.len()
    }

    /// Mark geometry as modified (requires cache rebuild)
    pub fn mark_dirty(&mut self)
        ensures
            final(self).vertices@ == old(self).vertices@,
            final(self).faces@ == old(self).faces@,
            final(self).dirty,
    {
        self.dirty = true;
    }

    /// Mark geometry as clean (cache is up to date)
    pub fn mark_clean(&mut self)
        ensures
            final(self).vertices@ == old(self).vertices@,
            final(self).faces@ == old(self).faces@,
            !final(self).dirty,
    {
        self.dirty = false;
    }

    /// Equality up to the positional tolerance: same number of vertices,
    /// every position within `POSITION_EPSILON` per component, and the
    /// same faces. The staleness flag is not part of the comparison.
    pub open spec fn approx_eq_spec(self, other: BlockotGeometry) -> bool {
        &&& self.vertices@.len() == other.vertices@.len()
        &&& forall|i: int|
            0 <= i < self.vertices@.len()
                ==> #[trigger] self.vertices@[i].spec_approx_eq(other.vertices@[i], POSITION_EPSILON)
        &&& faces_eq(self.faces@, other.faces@)
    }
}

impl Default for BlockotGeometry {
    fn default() -> (r: BlockotGeometry)
        ensures
            r.vertices@.len() == 0,
            r.faces@.len() == 0,
            r.dirty,
    {
        BlockotGeometry::new()
    }
}

impl PartialEq for BlockotGeometry {
    fn eq(&self, other: &BlockotGeometry) -> (r: bool) {
        geometries_equal(self, other)
    }
}

impl vstd::std_specs::cmp::PartialEqSpecImpl for BlockotGeometry {
    open spec fn obeys_eq_spec() -> bool {
        true
    }

    open spec fn eq_spec(&self, other: &BlockotGeometry) -> bool {
        self.approx_eq_spec(*other)
    }
}

/// Compare two geometries: vertices with the positional tolerance, faces
/// exactly. The staleness flag is ignored.
pub fn geometries_equal(a: &BlockotGeometry, b: &BlockotGeometry) -> (r: bool)
    ensures
        r == a.approx_eq_spec(*b),
{
    if a.vertices.len() != b.vertices.len() || a.faces.len() != b.faces.len() {
        return false;
    }
    let nv = a.vertices.len();
    let mut i: usize = 0;
    while i < nv
        invariant
            i <= nv,
            nv == a.vertices@.len(),
            nv == b.vertices@.len(),
            forall|j: int|
                0 <= j < i ==> #[trigger] a.vertices@[j].spec_approx_eq(b.vertices@[j], POSITION_EPSILON),
        decreases nv - i,
    {
        if !crate::math::vectors_approx_equal(a.vertices[i], b.vertices[i], POSITION_EPSILON) {
            return false;
        }
        i += 1;
    }
    let nf = a.faces.len();
    let mut k: usize = 0;
    while k < nf
        invariant
            k <= nf,
            nf == a.faces@.len(),
            nf == b.faces@.len(),
            forall|j: int| 0 <= j < k ==> #[trigger] a.faces@[j].vertex_indices@ == b.faces@[j].vertex_indices@,
        decreases nf - k,
    {
        if !(a.faces[k] == b.faces[k]) {
            return false;
        }
        k += 1;
    }
    true
}

} // verus!
