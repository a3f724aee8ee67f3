//! Editable-mesh core for a 3D blockout level-editing tool.
//!
//! The crate owns an indexed n-gon mesh (`BlockotGeometry`), a reversible
//! command layer over it, a vertex-canonical selection model, an edit-mode
//! state machine, a flat-array serialization codec, a screen-space vertex
//! hit test and a fan tessellator.
//!
//! All coordinates are fixed-point integers with 1_000_000 units per metre
//! (micro-units), so every geometric operation here is exact and the undo
//! guarantees of the command layer hold bit for bit.

pub mod edit_mode;
pub mod error;
pub mod face;
pub mod hit_test;
pub mod math;
pub mod mesh;
pub mod modes;
pub mod primitives;
pub mod selection;
pub mod serialization;
pub mod tessellate;
pub mod test_utils;
pub mod tools;
