//! Reversible geometry commands.
//!
//! Commands validate at construction; `execute` and `undo` are total:
//! once a command value exists they cannot fail. Indices that are out of
//! bounds at invocation time are skipped silently, in both directions
//! alike, so undo remains the exact inverse of execute. Commands never
//! trigger a cache rebuild; they only mutate the geometry and mark it
//! stale.

use vstd::prelude::*;
use crate::error::BlockotError;
use crate::mesh::BlockotGeometry;
use crate::math::Vec3;

verus! {

/// One step of `execute`: vertex `i` shifted by `off`, out-of-bounds
/// indices skipped.
pub open spec fn shift_vertex(verts: Seq<Vec3>, i: usize, off: Vec3) -> Seq<Vec3> {
    if i < verts.len() {
        verts.update(i as int, verts[i as int].spec_wrapping_add(off))
    } else {
        verts
    }
}

/// One step of `undo`: vertex `i` shifted back by `off`, out-of-bounds
/// indices skipped.
pub open spec fn unshift_vertex(verts: Seq<Vec3>, i: usize, off: Vec3) -> Seq<Vec3> {
    if i < verts.len() {
        verts.update(i as int, verts[i as int].spec_wrapping_sub(off))
    } else {
        verts
    }
}

/// The vertex sequence after `execute` shifts every indexed vertex, in
/// index-list order.
pub open spec fn apply_offset(verts: Seq<Vec3>, indices: Seq<usize>, off: Vec3) -> Seq<Vec3>
    decreases indices.len(),
{
    if indices.len() == 0 {
        verts
    } else {
        apply_offset(shift_vertex(verts, indices[0], off), indices.drop_first(), off)
    }
}

/// The vertex sequence after `undo` shifts every indexed vertex back, in
/// index-list order.
pub open spec fn revert_offset(verts: Seq<Vec3>, indices: Seq<usize>, off: Vec3) -> Seq<Vec3>
    decreases indices.len(),
{
    if indices.len() == 0 {
        verts
    } else {
        revert_offset(unshift_vertex(verts, indices[0], off), indices.drop_first(), off)
    }
}

/// Unshifting one vertex commutes past shifting a whole index list.
proof fn lemma_unshift_commutes(verts: Seq<Vec3>, indices: Seq<usize>, i: usize, off: Vec3)
    ensures
        unshift_vertex(apply_offset(verts, indices, off), i, off) == apply_offset(
            unshift_vertex(verts, i, off),
            indices,
            off,
        ),
    decreases indices.len(),
{
    if indices.len() > 0 {
        let j = indices[0];
        // Shift at j and unshift at i commute on one step.
        crate::math::lemma_wrapping_add_sub_inverse(verts[i as int], off);
        if i < verts.len() && j < verts.len() && i != j {
            assert(unshift_vertex(shift_vertex(verts, j, off), i, off) =~= shift_vertex(
                unshift_vertex(verts, i, off),
                j,
                off,
            ));
        } else {
            assert(unshift_vertex(shift_vertex(verts, j, off), i, off) =~= shift_vertex(
                unshift_vertex(verts, i, off),
                j,
                off,
            ));
        }
        lemma_unshift_commutes(shift_vertex(verts, j, off), indices.drop_first(), i, off);
    }
}

/// Exact undo: reverting an offset restores every vertex position
/// exactly, for every index list (out-of-bounds indices included, since
/// both directions skip them alike) and every offset.
pub proof fn lemma_exact_undo(verts: Seq<Vec3>, indices: Seq<usize>, off: Vec3)
    ensures
        revert_offset(apply_offset(verts, indices, off), indices, off) == verts,
    decreases indices.len(),
{
    if indices.len() > 0 {
        let i = indices[0];
        let rest = indices.drop_first();
        lemma_unshift_commutes(shift_vertex(verts, i, off), rest, i, off);
        crate::math::lemma_wrapping_add_sub_inverse(verts[i as int], off);
        assert(unshift_vertex(shift_vertex(verts, i, off), i, off) =~= verts);
        lemma_exact_undo(verts, rest, off);
    }
}

/// A reversible geometry command. Construction validates; `execute` and
/// `undo` are total and must be exact inverses on the vertex positions.
pub trait Command: Sized + Clone + Send + Sync {
    /// What executing this command does to a geometry.
    spec fn executes_to(&self, before: BlockotGeometry, after: BlockotGeometry) -> bool;

    /// What undoing this command does to a geometry.
    spec fn undoes_to(&self, before: BlockotGeometry, after: BlockotGeometry) -> bool;

    /// The command's human-readable label, for undo-history display.
    spec fn label(&self) -> Seq<char>;

    /// Execute the command on the geometry.
    /// This is infallible: validation happens at construction.
    fn execute(&self, geo: &mut BlockotGeometry)
        ensures
            self.executes_to(*old(geo), *final(geo)),
            final(geo).dirty,
    ;

    /// Undo the command on the geometry.
    /// This is infallible and exactly reverses `execute`.
    fn undo(&self, geo: &mut BlockotGeometry)
        ensures
            self.undoes_to(*old(geo), *final(geo)),
            final(geo).dirty,
    ;

    /// Returns a human-readable name for this command (for undo menu).
    fn name(&self) -> (r: &'static str)
        ensures
            r@ == self.label(),
    ;
}

/// Command to move vertices by an offset.
#[derive(Debug, Clone)]
pub struct MoveVertices {
    /// Indices of vertices to move
    indices: Vec<usize>,
    /// Offset to apply (for execute) / subtract again (for undo)
    offset: Vec3,
}

impl MoveVertices {
    /// Create a new MoveVertices command.
    ///
    /// Fails with `BlockotError::EmptySelection` when `indices` is empty;
    /// no other input is rejected here.
    pub fn new(indices: Vec<usize>, offset: Vec3) -> (r: Result<MoveVertices, BlockotError>)
        ensures
            r is Ok <==> indices@.len() > 0,
            r matches Ok(c) ==> c.spec_indices() == indices@ && c.spec_offset() == offset,
            r is Err ==> r == Err::<MoveVertices, BlockotError>(BlockotError::EmptySelection),
    {
        if indices.is_empty() {
            return Err(BlockotError::EmptySelection);
        }
        Ok(MoveVertices { indices, offset })
    }

    /// Returns the indices of vertices this command affects.
    pub fn indices(&self) -> (r: &Vec<usize>)
        ensures
            r@ == self.spec_indices(),
    {
        &self.indices
    }

    /// Returns the offset applied by this command.
    pub fn offset(&self) -> (r: Vec3)
        ensures
            r == self.spec_offset(),
    {
        self.offset
    }

    /// The index list of the command, for stating what execute and undo
    /// do to a geometry.
    pub closed spec fn spec_indices(&self) -> Seq<usize> {
        self.indices@
    }

    /// The offset of the command.
    pub closed spec fn spec_offset(&self) -> Vec3 {
        self.offset
    }

    /// Validate that all indices are within bounds of the given geometry.
    /// Call this before `execute` to catch stale indices early; `execute`
    /// itself only skips them.
    ///
    /// Fails with `BlockotError::InvalidVertexIndex` carrying the first
    /// out-of-bounds index, in index-list order.
    pub fn validate_indices(&self, geo: &BlockotGeometry) -> (r: Result<(), BlockotError>)
        ensures
            r is Ok <==> forall|j: int|
                0 <= j < self.spec_indices().len() ==> #[trigger] self.spec_indices()[j]
                    < geo.vertices@.len(),
            r matches Err(e) ==> exists|j: int|
                {
                    &&& 0 <= j < self.spec_indices().len()
                    &&& self.spec_indices()[j] >= geo.vertices@.len()
                    &&& forall|j2: int|
                        0 <= j2 < j ==> #[trigger] self.spec_indices()[j2] < geo.vertices@.len()
                    &&& e == BlockotError::InvalidVertexIndex(self.spec_indices()[j])
                },
    {
        let n = self.indices.len();
        let mut t: usize = 0;
        while t < n
            invariant
                t <= n,
                n == self.indices@.len(),
                forall|j: int| 0 <= j < t ==> #[trigger] self.indices@[j] < geo.vertices@.len(),
            decreases n - t,
        {
            let idx = self.indices[t];
            if idx >= geo.vertices.len() {
                proof {
                    assert(self.spec_indices()[t as int] >= geo.vertices@.len());
                    assert(forall|j2: int|
                        0 <= j2 < t ==> #[trigger] self.spec_indices()[j2] < geo.vertices@.len());
                }
                return Err(BlockotError::InvalidVertexIndex(idx));
            }
            t += 1;
        }
        Ok(())
    }
}

impl Command for MoveVertices {
    open spec fn executes_to(&self, before: BlockotGeometry, after: BlockotGeometry) -> bool {
        &&& after.vertices@ == apply_offset(before.vertices@, self.spec_indices(), self.spec_offset())
        &&& after.faces@ == before.faces@
        &&& after.dirty
    }

    open spec fn undoes_to(&self, before: BlockotGeometry, after: BlockotGeometry) -> bool {
        &&& after.vertices@ == revert_offset(before.vertices@, self.spec_indices(), self.spec_offset())
        &&& after.faces@ == before.faces@
        &&& after.dirty
    }

    open spec fn label(&self) -> Seq<char> {
        "Move Vertices"@
    }

    fn execute(&self, geo: &mut BlockotGeometry) {
        let ghost v0 = geo.vertices@;
        proof {
            assert(self.indices@.skip(0) =~= self.indices@);
        }
        let n = self.indices.len();
        let mut t: usize = 0;
        while t < n
            invariant
                t <= n,
                n == self.indices@.len(),
                geo.faces@ == old(geo).faces@,
                apply_offset(v0, self.indices@, self.offset) == apply_offset(
                    geo.vertices@,
                    self.indices@.skip(t as int),
                    self.offset,
                ),
            decreases n - t,
        {
            let ghost before = geo.vertices@;
            let idx = self.indices[t];
            if idx < geo.vertices.len() {
                let v = geo.vertices[idx];
                geo.vertices.set(idx, v.wrapping_add(self.offset));
            }
            proof {
                assert(geo.vertices@ == shift_vertex(before, self.indices@[t as int], self.offset));
                assert(self.indices@.skip(t as int).drop_first() =~= self.indices@.skip(t + 1));
                assert(self.indices@.skip(t as int)[0] == self.indices@[t as int]);
            }
            t += 1;
        }
        proof {
            assert(self.indices@.skip(n as int).len() == 0);
        }
        geo.dirty = true;
    }

    fn undo(&self, geo: &mut BlockotGeometry) {
        let ghost v0 = geo.vertices@;
        proof {
            assert(self.indices@.skip(0) =~= self.indices@);
        }
        let n = self.indices.len();
        let mut t: usize = 0;
        while t < n
            invariant
                t <= n,
                n == self.indices@.len(),
                geo.faces@ == old(geo).faces@,
                revert_offset(v0, self.indices@, self.offset) == revert_offset(
                    geo.vertices@,
                    self.indices@.skip(t as int),
                    self.offset,
                ),
            decreases n - t,
        {
            let ghost before = geo.vertices@;
            let idx = self.indices[t];
            if idx < geo.vertices.len() {
                let v = geo.vertices[idx];
                geo.vertices.set(idx, v.wrapping_sub(self.offset));
            }
            proof {
                assert(geo.vertices@ == unshift_vertex(before, self.indices@[t as int], self.offset));
                assert(self.indices@.skip(t as int).drop_first() =~= self.indices@.skip(t + 1));
                assert(self.indices@.skip(t as int)[0] == self.indices@[t as int]);
            }
            t += 1;
        }
        proof {
            assert(self.indices@.skip(n as int).len() == 0);
        }
        geo.dirty = true;
    }

    fn name(&self) -> (r: &'static str) {
        "Move Vertices"
    }
}

/// Execute a command directly on geometry without undo bookkeeping.
pub fn execute_without_undo<C: Command>(geo: &mut BlockotGeometry, cmd: &C)
    ensures
        cmd.executes_to(*old(geo), *final(geo)),
        final(geo).dirty,
{
    cmd.execute(geo);
}

/// Undo a command directly on geometry.
pub fn undo_command<C: Command>(geo: &mut BlockotGeometry, cmd: &C)
    ensures
        cmd.undoes_to(*old(geo), *final(geo)),
        final(geo).dirty,
{
    cmd.undo(geo);
}

} // verus!
