//! Fan tessellation with flat normals.
//!
//! For each face with at least 3 vertices, computes one flat normal from
//! the cross product of two edge vectors over the face's first three
//! vertices, then fan-triangulates from the first vertex: triangle
//! `(v0, v_i, v_{i+1})` for `i` in `[1, n-2]`. Three entries are emitted
//! per triangle, each pairing a vertex position with the face normal.
//!
//! The normal is the unnormalized cross-product direction: with
//! fixed-point coordinates the direction is exact, and the host scales it
//! to unit length for rendering. A degenerate face (first three vertices
//! collinear, so the cross product is exactly zero) gets the canonical up
//! direction instead.

use vstd::prelude::*;
use crate::face::Face;
use crate::mesh::{mesh_wf, BlockotGeometry};
use crate::math::Vec3;

verus! {

/// An unnormalized flat-normal direction. Components fit comfortably in
/// `i128`: each is a difference of products of two coordinate
/// differences, so its magnitude stays below `2^65`.
#[derive(Debug, Clone, Copy, PartialEq, Eq, Structural)]
pub struct Normal {
    pub x: i128,
    pub y: i128,
    pub z: i128,
}

/// The canonical up direction, substituted for degenerate faces.
pub open spec fn spec_up() -> Normal {
    Normal { x: 0, y: 1, z: 0 }
}

/// Cross product `edge2 x edge1` of the two edge vectors out of `v0`,
/// as unbounded integers. This operand order makes counter-clockwise
/// winding (viewed from outside) yield an outward normal.
pub open spec fn spec_cross(v0: Vec3, v1: Vec3, v2: Vec3) -> (int, int, int) {
    let e1x = v1.x - v0.x;
    let e1y = v1.y - v0.y;
    let e1z = v1.z - v0.z;
    let e2x = v2.x - v0.x;
    let e2y = v2.y - v0.y;
    let e2z = v2.z - v0.z;
    (e2y * e1z - e2z * e1y, e2z * e1x - e2x * e1z, e2x * e1y - e2y * e1x)
}

/// The flat normal of a face: the cross product over its first three
/// vertices, or the canonical up direction when the face has fewer than
/// 3 vertices or the cross product is exactly zero (collinear vertices).
pub open spec fn face_normal_of(vertices: Seq<Vec3>, face: Face) -> Normal {
    let f = face.vertex_indices@;
    if f.len() < 3 {
        spec_up()
    } else {
        let c = spec_cross(vertices[f[0] as int], vertices[f[1] as int], vertices[f[2] as int]);
        if c.0 == 0 && c.1 == 0 && c.2 == 0 {
            spec_up()
        } else {
            Normal { x: c.0 as i128, y: c.1 as i128, z: c.2 as i128 }
        }
    }
}

/// The three (position, normal) entries of the fan triangle
/// `(v0, v_i, v_{i+1})` of a face.
pub open spec fn tri_entries(vertices: Seq<Vec3>, face: Face, i: int) -> Seq<(Vec3, Normal)> {
    let f = face.vertex_indices@;
    let n = face_normal_of(vertices, face);
    seq![
        (vertices[f[0] as int], n),
        (vertices[f[i] as int], n),
        (vertices[f[i + 1] as int], n),
    ]
}

/// The entries of the fan triangles `(v0, v_i, v_{i+1})` for `i < t`.
pub open spec fn face_entries_upto(vertices: Seq<Vec3>, face: Face, t: int) -> Seq<(Vec3, Normal)>
    decreases t,
{
    if t <= 1 {
        Seq::empty()
    } else {
        face_entries_upto(vertices, face, t - 1) + tri_entries(vertices, face, t - 1)
    }
}

/// Everything one face contributes: `n - 2` fan triangles for an n-gon,
/// nothing for a face with fewer than 3 vertices.
pub open spec fn face_entries(vertices: Seq<Vec3>, face: Face) -> Seq<(Vec3, Normal)> {
    if face.vertex_indices@.len() < 3 {
        Seq::empty()
    } else {
        face_entries_upto(vertices, face, face.vertex_indices@.len() - 1)
    }
}

/// The entries of the first `m` faces of a geometry, in face order.
pub open spec fn mesh_entries_upto(g: BlockotGeometry, m: int) -> Seq<(Vec3, Normal)>
    decreases m,
{
    if m <= 0 {
        Seq::empty()
    } else {
        mesh_entries_upto(g, m - 1) + face_entries(g.vertices@, g.faces@[m - 1])
    }
}

/// The full tessellation of a geometry: 3 entries per fan triangle, in
/// face order.
pub open spec fn tessellation_of(g: BlockotGeometry) -> Seq<(Vec3, Normal)> {
    mesh_entries_upto(g, g.faces@.len() as int)
}

/// A face with `n >= 3` vertices yields exactly `n - 2` triangles, hence
/// `3 * (n - 2)` entries, and every entry carries the face's one flat
/// normal.
pub proof fn lemma_face_entries_shape(vertices: Seq<Vec3>, face: Face, t: int)
    requires
        1 <= t,
    ensures
        face_entries_upto(vertices, face, t).len() == 3 * (t - 1),
        forall|p: int|
            0 <= p < face_entries_upto(vertices, face, t).len()
                ==> (#[trigger] face_entries_upto(vertices, face, t)[p]).1 == face_normal_of(
                vertices,
                face,
            ),
    decreases t,
{
    if t > 1 {
        lemma_face_entries_shape(vertices, face, t - 1);
    }
}

/// Product of two coordinate differences, exactly, in `i128`.
fn mul_diff(a: i64, b: i64) -> (r: i128)
    requires
        -0x1_0000_0000 < a < 0x1_0000_0000,
        -0x1_0000_0000 < b < 0x1_0000_0000,
    ensures
        r == a * b,
        -0x1_0000_0000_0000_0000i128 < r < 0x1_0000_0000_0000_0000i128,
{
    let wa: i128 = a as i128;
    let wb: i128 = b as i128;
    proof {
        assert(-0x1_0000_0000_0000_0000i128 < wa * wb && wa * wb
            < 0x1_0000_0000_0000_0000i128) by (nonlinear_arith)
            requires
                -0x1_0000_0000i128 < wa && wa < 0x1_0000_0000i128,
                -0x1_0000_0000i128 < wb && wb < 0x1_0000_0000i128;
    }
    wa * wb
}

/// Compute the flat normal for a face: cross product of the edge vectors
/// out of the face's first vertex, or the canonical up direction for a
/// degenerate or sub-triangle face.
pub fn face_normal(vertices: &Vec<Vec3>, face: &Face) -> (r: Normal)
    requires
        forall|j: int|
            0 <= j < face.vertex_indices@.len() ==> #[trigger] face.vertex_indices@[j]
                < vertices@.len(),
    ensures
        r == face_normal_of(vertices@, *face),
{
    if face.vertex_indices.len() < 3 {
        return Normal { x: 0, y: 1, z: 0 };
    }

    let v0 = vertices[face.vertex_indices[0]];
    let v1 = vertices[face.vertex_indices[1]];
    let v2 = vertices[face.vertex_indices[2]];

    let e1x: i64 = v1.x as i64 - v0.x as i64;
    let e1y: i64 = v1.y as i64 - v0.y as i64;
    let e1z: i64 = v1.z as i64 - v0.z as i64;
    let e2x: i64 = v2.x as i64 - v0.x as i64;
    let e2y: i64 = v2.y as i64 - v0.y as i64;
    let e2z: i64 = v2.z as i64 - v0.z as i64;

    let cx: i128 = mul_diff(e2y, e1z) - mul_diff(e2z, e1y);
    let cy: i128 = mul_diff(e2z, e1x) - mul_diff(e2x, e1z);
    let cz: i128 = mul_diff(e2x, e1y) - mul_diff(e2y, e1x);

    if cx == 0 && cy == 0 && cz == 0 {
        Normal { x: 0, y: 1, z: 0 }
    } else {
        Normal { x: cx, y: cy, z: cz }
    }
}

/// Tessellate a geometry into a flat list of (position, normal) entries,
/// 3 per triangle, for an external renderer. The tessellator keeps no
/// state between calls and does not touch the staleness flag.
pub fn tessellate(geo: &BlockotGeometry) -> (r: Vec<(Vec3, Normal)>)
    requires
        mesh_wf(*geo),
    ensures
        r@ == tessellation_of(*geo),
{
    let mut out: Vec<(Vec3, Normal)> = Vec::new();

    let nf = geo.faces.len();
    let mut k: usize = 0;
    while k < nf
        invariant
            k <= nf,
            nf == geo.faces@.len(),
            mesh_wf(*geo),
            out@ == mesh_entries_upto(*geo, k as int),
        decreases nf - k,
    {
        let face = &geo.faces[k];
        let fl = face.vertex_indices.len();
        if fl >= 3 {
            let n = face_normal(&geo.vertices, face);
            let first_vertex = geo.vertices[face.vertex_indices[0]];

            let mut i: usize = 1;
            while i < fl - 1
                invariant
                    1 <= i <= fl - 1,
                    3 <= fl,
                    k < nf,
                    nf == geo.faces@.len(),
                    mesh_wf(*geo),
                    face == geo.faces@[k as int],
                    fl == face.vertex_indices@.len(),
                    n == face_normal_of(geo.vertices@, geo.faces@[k as int]),
                    first_vertex == geo.vertices@[face.vertex_indices@[0] as int],
                    out@ == mesh_entries_upto(*geo, k as int) + face_entries_upto(
                        geo.vertices@,
                        geo.faces@[k as int],
                        i as int,
                    ),
                decreases fl - i,
            {
                let i1 = face.vertex_indices[i];
                let i2 = face.vertex_indices[i + 1];
                out.push((first_vertex, n));
                out.push((geo.vertices[i1], n));
                out.push((geo.vertices[i2], n));
                proof {
                    assert(out@ =~= mesh_entries_upto(*geo, k as int) + face_entries_upto(
                        geo.vertices@,
                        geo.faces@[k as int],
                        i + 1,
                    ));
                }
                i += 1;
            }
            proof {
                assert(out@ == mesh_entries_upto(*geo, k + 1));
            }
        } else {
            proof {
                assert(face_entries(geo.vertices@, geo.faces@[k as int]) =~= Seq::empty());
                assert(out@ =~= mesh_entries_upto(*geo, k + 1));
            }
        }
        k += 1;
    }

    out
}

} // verus!
