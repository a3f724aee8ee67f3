//! Error values for fallible operations.
//!
//! Commands validate at construction and report these errors; `execute`
//! and `undo` themselves are total and never fail.

use vstd::prelude::*;

verus! {

/// Errors that can occur in blockot operations.
#[derive(Debug, Clone, PartialEq, Eq, Structural)]
pub enum BlockotError {
    /// Operation requires a selection but none was provided
    EmptySelection,
    /// Vertex index is out of bounds
    InvalidVertexIndex(usize),
    /// Face index is out of bounds
    InvalidFaceIndex(usize),
}

impl BlockotError {
    /// A human-readable description of the error, without the offending
    /// index (the index is available on the variant itself).
    pub fn message(&self) -> (r: &'static str)
        ensures
            self is EmptySelection ==> r@ == "Operation requires a selection but none was provided"@,
            self is InvalidVertexIndex ==> r@ == "Invalid vertex index"@,
            self is InvalidFaceIndex ==> r@ == "Invalid face index"@,
    {
        match self {
            BlockotError::EmptySelection => "Operation requires a selection but none was provided",
            BlockotError::InvalidVertexIndex(_) => "Invalid vertex index",
            BlockotError::InvalidFaceIndex(_) => "Invalid face index",
        }
    }
}

} // verus!
