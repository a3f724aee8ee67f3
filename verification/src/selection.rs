//! Vertex-canonical selection model.
//!
//! `vertex_indices` is the canonical form that every transform command
//! reads; `selected_edges` and `selected_faces` are display hints only,
//! populated by the host for highlighting, and never derived here.

use vstd::prelude::*;
use std::collections::HashSet;
use crate::modes::SelectionMode;

verus! {

broadcast use vstd::std_specs::hash::group_hash_axioms;

/// Which vertices are selected, independent of display mode.
#[derive(Debug)]
pub struct Selection {
    /// Current selection mode (Vertex, Edge, Face)
    pub mode: SelectionMode,
    /// Canonical selected vertex indices — used for transforms
    pub vertex_indices: HashSet<usize>,
    /// Rendering hints: which edges are selected (for Edge mode display)
    pub selected_edges: Vec<(usize, usize)>,
    /// Rendering hints: which face indices are selected (for Face mode display)
    pub selected_faces: Vec<usize>,
}

impl Selection {
    /// Create a new empty selection in the given mode.
    pub fn new(mode: SelectionMode) -> (r: Selection)
        ensures
            r.mode == mode,
            r.vertex_indices@ == Set::<usize>::empty(),
            r.selected_edges@.len() == 0,
            r.selected_faces@.len() == 0,
    {
        Selection {
            mode,
            vertex_indices: HashSet::new(),
            selected_edges: Vec::new(),
            selected_faces: Vec::new(),
        }
    }

    /// Clear all selected elements. The mode is unchanged.
    pub fn clear(&mut self)
        ensures
            final(self).mode == old(self).mode,
            final(self).vertex_indices@ == Set::<usize>::empty(),
            final(self).selected_edges@.len() == 0,
            final(self).selected_faces@.len() == 0,
    {
        self.vertex_indices.clear();
        self.selected_edges.clear();
        self.selected_faces.clear();
    }

    /// Returns true if nothing is selected (canonically).
    pub fn is_empty(&self) -> (r: bool)
        ensures
            r == self.vertex_indices@.is_empty(),
    {
        self.vertex_indices.is_empty()
    }

    /// Select a single vertex, clearing any previous selection:
    /// single-selection semantics.
    pub fn select_vertex(&mut self, index: usize)
        ensures
            final(self).mode == old(self).mode,
            final(self).vertex_indices@ == Set::<usize>::empty().insert(index),
            final(self).selected_edges@.len() == 0,
            final(self).selected_faces@.len() == 0,
    {
        self.clear();
        self.vertex_indices.insert(index);
    }

    /// Toggle a vertex in the selection: add it if absent, remove it if
    /// present. Other selected indices are untouched: multi-selection
    /// semantics.
    pub fn toggle_vertex(&mut self, index: usize)
        ensures
            final(self).mode == old(self).mode,
            final(self).vertex_indices@ == if old(self).vertex_indices@.contains(index) {
                old(self).vertex_indices@.remove(index)
            } else {
                old(self).vertex_indices@.insert(index)
            },
            final(self).selected_edges@ == old(self).selected_edges@,
            final(self).selected_faces@ == old(self).selected_faces@,
    {
        if !self.vertex_indices.remove(&index) {
            self.vertex_indices.insert(index);
        }
    }
}

/// Relies on `std::collections::HashSet::clone`: the clone holds exactly
/// the elements of the original.
#[verifier::external_body]
fn clone_index_set(s: &HashSet<usize>) -> (r: HashSet<usize>)
    ensures
        r@ == s@,
{
    s.clone()
}

impl Clone for Selection {
    fn clone(&self) -> (r: Selection)
        ensures
            r.mode == self.mode,
            r.vertex_indices@ == self.vertex_indices@,
            r.selected_edges@ == self.selected_edges@,
            r.selected_faces@ == self.selected_faces@,
    {
        let mut edges: Vec<(usize, usize)> = Vec::new();
        let mut i: usize = 0;
        while i < self.selected_edges.len()
            invariant
                i <= self.selected_edges@.len(),
                edges@.len() == i,
                forall|j: int| 0 <= j < i ==> edges@[j] == self.selected_edges@[j],
            decreases self.selected_edges@.len() - i,
        {
            edges.push(self.selected_edges[i]);
            i += 1;
        }
        let mut faces: Vec<usize> = Vec::new();
        let mut k: usize = 0;
        while k < self.selected_faces.len()
            invariant
                k <= self.selected_faces@.len(),
                faces@.len() == k,
                forall|j: int| 0 <= j < k ==> faces@[j] == self.selected_faces@[j],
            decreases self.selected_faces@.len() - k,
        {
            faces.push(self.selected_faces[k]);
            k += 1;
        }
        proof {
            assert(edges@ =~= self.selected_edges@);
            assert(faces@ =~= self.selected_faces@);
        }
        Selection {
            mode: self.mode,
            vertex_indices: clone_index_set(&self.vertex_indices),
            selected_edges: edges,
            selected_faces: faces,
        }
    }
}

impl Default for Selection {
    fn default() -> (r: Selection)
        ensures
            r.mode == SelectionMode::Vertex,
            r.vertex_indices@ == Set::<usize>::empty(),
            r.selected_edges@.len() == 0,
            r.selected_faces@.len() == 0,
    {
        Selection::new(SelectionMode::Vertex)
    }
}

} // verus!
