//! Selection mode: which kind of geometric element is selectable.

use vstd::prelude::*;

verus! {

/// The selection mode determines which geometric elements are selectable.
/// Switching modes never changes the canonical vertex selection; it only
/// changes which display hints a consumer reads.
#[derive(Debug, Clone, Copy, PartialEq, Eq, Structural)]
pub enum SelectionMode {
    /// Select individual vertices
    Vertex,
    /// Select edges (pairs of vertices)
    Edge,
    /// Select faces
    Face,
}

impl Default for SelectionMode {
    fn default() -> (r: SelectionMode)
        ensures
            r == SelectionMode::Vertex,
    {
        SelectionMode::Vertex
    }
}

} // verus!
