//! Shared geometry fixtures and comparison helpers, public so that
//! integration tests can use them.

use vstd::prelude::*;
use crate::face::Face;
use crate::mesh::{mesh_wf, BlockotGeometry};
use crate::math::Vec3;

pub use crate::math::vectors_approx_equal;
pub use crate::mesh::geometries_equal;

verus! {

/// Creates a unit cube fixture for testing.
/// Wrapper around `primitives::unit_cube` for test convenience.
pub fn unit_cube() -> (r: BlockotGeometry)
    ensures
        r.vertices@ == crate::primitives::unit_cube_vertices(),
        r.faces@.len() == crate::primitives::unit_cube_face_indices().len(),
        forall|k: int|
            0 <= k < r.faces@.len() ==> #[trigger] r.faces@[k].vertex_indices@
                == crate::primitives::unit_cube_face_indices()[k],
        r.dirty,
        mesh_wf(r),
{
    crate::primitives::unit_cube()
}

/// Creates a minimal single-face geometry for testing:
/// one triangle face over 3 vertices.
pub fn single_face() -> (r: BlockotGeometry)
    ensures
        r.vertices@ =~= seq![
            (Vec3 { x: 0i32, y: 0i32, z: 0i32 }),
            (Vec3 { x: 1000000i32, y: 0i32, z: 0i32 }),
            (Vec3 { x: 500000i32, y: 1000000i32, z: 0i32 }),
        ],
        r.faces@.len() == 1,
        r.faces@[0].vertex_indices@ == seq![0usize, 1, 2],
        r.dirty,
        mesh_wf(r),
{
    let mut geo = BlockotGeometry::with_capacity(3, 1);

    geo.vertices = vec![
        Vec3::new(0, 0, 0),
        Vec3::new(1000000, 0, 0),
        Vec3::new(500000, 1000000, 0),
    ];

    geo.faces = vec![Face::triangle(0, 1, 2)];

    proof {
        assert(geo.faces@[0].vertex_indices@ == seq![0usize, 1, 2]);
    }

    geo
}

/// Creates a single quad face for testing.
pub fn single_quad() -> (r: BlockotGeometry)
    ensures
        r.vertices@ =~= seq![
            (Vec3 { x: 0i32, y: 0i32, z: 0i32 }),
            (Vec3 { x: 1000000i32, y: 0i32, z: 0i32 }),
            (Vec3 { x: 1000000i32, y: 1000000i32, z: 0i32 }),
            (Vec3 { x: 0i32, y: 1000000i32, z: 0i32 }),
        ],
        r.faces@.len() == 1,
        r.faces@[0].vertex_indices@ == seq![0usize, 1, 2, 3],
        r.dirty,
        mesh_wf(r),
{
    let mut geo = BlockotGeometry::with_capacity(4, 1);

    geo.vertices = vec![
        Vec3::new(0, 0, 0),
        Vec3::new(1000000, 0, 0),
        Vec3::new(1000000, 1000000, 0),
        Vec3::new(0, 1000000, 0),
    ];

    geo.faces = vec![Face::quad(0, 1, 2, 3)];

    proof {
        assert(geo.faces@[0].vertex_indices@ == seq![0usize, 1, 2, 3]);
    }

    geo
}

} // verus!
