//! Fixed-point vector math.
//!
//! Positions and offsets are stored in micro-units (1_000_000 units per
//! metre), so vertex arithmetic is exact integer arithmetic. Component
//! addition wraps around the `i32` range, which makes translation by an
//! offset a bijection on the coordinate space: subtracting the same offset
//! restores the original value exactly, for every input.

use vstd::prelude::*;

verus! {

/// Tolerance, in micro-units, below which two coordinates count as equal.
pub const POSITION_EPSILON: i32 = 1;

/// A 3-component fixed-point position or offset, in micro-units.
#[derive(Debug, Clone, Copy, PartialEq, Eq, Structural)]
pub struct Vec3 {
    pub x: i32,
    pub y: i32,
    pub z: i32,
}

/// A 2-component fixed-point screen position, in micro-pixels.
#[derive(Debug, Clone, Copy, PartialEq, Eq, Structural)]
pub struct Vec2 {
    pub x: i32,
    pub y: i32,
}

impl Vec3 {
    pub fn new(x: i32, y: i32, z: i32) -> (r: Vec3)
        ensures
            r == (Vec3 { x, y, z }),
    {
        Vec3 { x, y, z }
    }

    /// Componentwise wrapping addition.
    pub open spec fn spec_wrapping_add(self, o: Vec3) -> Vec3 {
        Vec3 {
            x: vstd::wrapping::i32_specs::wrapping_add(self.x, o.x),
            y: vstd::wrapping::i32_specs::wrapping_add(self.y, o.y),
            z: vstd::wrapping::i32_specs::wrapping_add(self.z, o.z),
        }
    }

    /// Componentwise wrapping subtraction.
    pub open spec fn spec_wrapping_sub(self, o: Vec3) -> Vec3 {
        Vec3 {
            x: vstd::wrapping::i32_specs::wrapping_sub(self.x, o.x),
            y: vstd::wrapping::i32_specs::wrapping_sub(self.y, o.y),
            z: vstd::wrapping::i32_specs::wrapping_sub(self.z, o.z),
        }
    }

    pub fn wrapping_add(self, o: Vec3) -> (r: Vec3)
        ensures
            r == self.spec_wrapping_add(o),
    {
        Vec3 { x: self.x.wrapping_add(o.x), y: self.y.wrapping_add(o.y), z: self.z.wrapping_add(o.z) }
    }

    pub fn wrapping_sub(self, o: Vec3) -> (r: Vec3)
        ensures
            r == self.spec_wrapping_sub(o),
    {
        Vec3 { x: self.x.wrapping_sub(o.x), y: self.y.wrapping_sub(o.y), z: self.z.wrapping_sub(o.z) }
    }

    /// Componentwise closeness: every component differs by strictly less
    /// than `epsilon` micro-units.
    pub open spec fn spec_approx_eq(self, o: Vec3, epsilon: i32) -> bool {
        &&& -(epsilon as int) < self.x - o.x < epsilon as int
        &&& -(epsilon as int) < self.y - o.y < epsilon as int
        &&& -(epsilon as int) < self.z - o.z < epsilon as int
    }
}

impl Vec2 {
    pub fn new(x: i32, y: i32) -> (r: Vec2)
        ensures
            r == (Vec2 { x, y }),
    {
        Vec2 { x, y }
    }

    /// Squared Euclidean distance between two screen positions, as an
    /// unbounded integer.
    pub open spec fn spec_dist_sq(self, o: Vec2) -> int {
        (self.x - o.x) * (self.x - o.x) + (self.y - o.y) * (self.y - o.y)
    }
}

/// Subtracting an offset undoes adding it, on every input: wrapping
/// translation is a bijection.
pub proof fn lemma_wrapping_add_sub_inverse(v: Vec3, o: Vec3)
    ensures
        v.spec_wrapping_add(o).spec_wrapping_sub(o) == v,
        v.spec_wrapping_sub(o).spec_wrapping_add(o) == v,
{
}

/// Compare two positions with a per-component tolerance.
pub fn vectors_approx_equal(a: Vec3, b: Vec3, epsilon: i32) -> (r: bool)
    ensures
        r == a.spec_approx_eq(b, epsilon),
{
    let dx: i64 = a.x as i64 - b.x as i64;
    let dy: i64 = a.y as i64 - b.y as i64;
    let dz: i64 = a.z as i64 - b.z as i64;
    let e: i64 = epsilon as i64;
    -e < dx && dx < e && -e < dy && dy < e && -e < dz && dz < e
}

} // verus!
