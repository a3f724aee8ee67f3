//! Primitive shape generators.

use vstd::prelude::*;
use crate::face::Face;
use crate::mesh::{mesh_wf, BlockotGeometry};
use crate::math::Vec3;

verus! {

/// The eight corners of a 1-metre cube centred at the origin, in
/// micro-units: the four bottom corners first, then the four top corners,
/// each ring ordered front-left, front-right, back-right, back-left.
pub open spec fn unit_cube_vertices() -> Seq<Vec3> {
    seq![
        (Vec3 { x: -500000i32, y: -500000i32, z: -500000i32 }),
        (Vec3 { x: 500000i32, y: -500000i32, z: -500000i32 }),
        (Vec3 { x: 500000i32, y: -500000i32, z: 500000i32 }),
        (Vec3 { x: -500000i32, y: -500000i32, z: 500000i32 }),
        (Vec3 { x: -500000i32, y: 500000i32, z: -500000i32 }),
        (Vec3 { x: 500000i32, y: 500000i32, z: -500000i32 }),
        (Vec3 { x: 500000i32, y: 500000i32, z: 500000i32 }),
        (Vec3 { x: -500000i32, y: 500000i32, z: 500000i32 }),
    ]
}

/// The six quad faces of the cube, counter-clockwise viewed from outside:
/// front, back, top, bottom, right, left.
pub open spec fn unit_cube_face_indices() -> Seq<Seq<usize>> {
    seq![
        seq![0usize, 1, 5, 4],
        seq![2usize, 3, 7, 6],
        seq![4usize, 5, 6, 7],
        seq![3usize, 2, 1, 0],
        seq![1usize, 2, 6, 5],
        seq![3usize, 0, 4, 7],
    ]
}

/// Creates a unit cube (1m on each side) centered at origin:
/// 8 vertices and 6 quad faces with counter-clockwise winding, so that
/// the derived flat normals point outward.
pub fn unit_cube() -> (r: BlockotGeometry)
    ensures
        r.vertices@ == unit_cube_vertices(),
        r.faces@.len() == unit_cube_face_indices().len(),
        forall|k: int|
            0 <= k < r.faces@.len() ==> #[trigger] r.faces@[k].vertex_indices@
                == unit_cube_face_indices()[k],
        r.dirty,
        mesh_wf(r),
{
    let mut geo = BlockotGeometry::with_capacity(8, 6);

    geo.vertices = vec![
        Vec3::new(-500000, -500000, -500000),
        Vec3::new(500000, -500000, -500000),
        Vec3::new(500000, -500000, 500000),
        Vec3::new(-500000, -500000, 500000),
        Vec3::new(-500000, 500000, -500000),
        Vec3::new(500000, 500000, -500000),
        Vec3::new(500000, 500000, 500000),
        Vec3::new(-500000, 500000, 500000),
    ];

    geo.faces = vec![
        Face::quad(0, 1, 5, 4),
        Face::quad(2, 3, 7, 6),
        Face::quad(4, 5, 6, 7),
        Face::quad(3, 2, 1, 0),
        Face::quad(1, 2, 6, 5),
        Face::quad(3, 0, 4, 7),
    ];

    proof {
        assert(geo.vertices@ =~= unit_cube_vertices());
        assert(geo.faces@[0].vertex_indices@ == unit_cube_face_indices()[0]);
        assert(geo.faces@[1].vertex_indices@ == unit_cube_face_indices()[1]);
        assert(geo.faces@[2].vertex_indices@ == unit_cube_face_indices()[2]);
        assert(geo.faces@[3].vertex_indices@ == unit_cube_face_indices()[3]);
        assert(geo.faces@[4].vertex_indices@ == unit_cube_face_indices()[4]);
        assert(geo.faces@[5].vertex_indices@ == unit_cube_face_indices()[5]);
    }

    geo
}

} // verus!
