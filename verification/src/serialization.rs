//! Flat-array serialization codec for `BlockotGeometry`.
//!
//! The wire form is three parallel flat arrays — vertex positions, a
//! per-face vertex count, and the concatenation of every face's index
//! list — chosen so the persisted form stays stable and diffable line by
//! line. Decoding validates the structure wholesale: any violation
//! discards the whole result.

use vstd::prelude::*;
use crate::face::Face;
use crate::mesh::{mesh_wf, BlockotGeometry};
use crate::math::Vec3;

verus! {

/// Why a wire form was rejected.
#[derive(Debug, Clone, Copy, PartialEq, Eq, Structural)]
pub enum DecodeError {
    /// A consumed vertex index is not below the number of positions.
    IndexOutOfRange,
    /// The flattened index stream ran out before a face consumed its count.
    NotEnoughIndices,
    /// Indices remained after every face consumed its count.
    TrailingIndices,
}

/// Sum of the first `k` face-vertex counts: the offset, in the flattened
/// index stream, at which face `k`'s indices start.
pub open spec fn csum(counts: Seq<usize>, k: int) -> int
    decreases k,
{
    if k <= 0 {
        0
    } else {
        csum(counts, k - 1) + counts[k - 1]
    }
}

/// The concatenation of the index lists of the first `m` faces.
pub open spec fn flat_upto(faces: Seq<Face>, m: int) -> Seq<usize>
    decreases m,
{
    if m <= 0 {
        Seq::empty()
    } else {
        flat_upto(faces, m - 1) + faces[m - 1].vertex_indices@
    }
}

/// The whole flattened index stream of a face sequence.
pub open spec fn flat_of(faces: Seq<Face>) -> Seq<usize> {
    flat_upto(faces, faces.len() as int)
}

/// Some index among the first `n` is out of range for `plen` positions.
pub open spec fn has_bad_index(indices: Seq<usize>, plen: int, n: int) -> bool {
    exists|j: int| 0 <= j < n && #[trigger] indices[j] >= plen
}

/// A wire form decodes successfully exactly when the counts consume the
/// index stream completely and every index is in range.
pub open spec fn wire_ok(plen: int, counts: Seq<usize>, indices: Seq<usize>) -> bool {
    &&& csum(counts, counts.len() as int) == indices.len()
    &&& !has_bad_index(indices, plen, indices.len() as int)
}

pub proof fn lemma_csum_mono(counts: Seq<usize>, a: int, b: int)
    requires
        0 <= a <= b,
    ensures
        csum(counts, a) <= csum(counts, b),
    decreases b,
{
    if b > a {
        lemma_csum_mono(counts, a, b - 1);
    }
}

/// Convert `BlockotGeometry` to flat arrays for persistence.
///
/// Returns `(vertices, face_vertex_counts, face_indices)` where
/// `vertices` is the vertex sequence verbatim, `face_vertex_counts` holds
/// the number of vertices of each face, and `face_indices` is the
/// concatenation of every face's index list in face order.
pub fn to_packed_arrays(geo: &BlockotGeometry) -> (r: (Vec<Vec3>, Vec<usize>, Vec<usize>))
    ensures
        r.0@ == geo.vertices@,
        r.1@.len() == geo.faces@.len(),
        forall|k: int| 0 <= k < geo.faces@.len() ==> #[trigger] r.1@[k] == geo.faces@[k].vertex_indices@.len(),
        r.2@ == flat_of(geo.faces@),
{
    let mut vertices: Vec<Vec3> = Vec::new();
    let mut i: usize = 0;
    while i < geo.vertices.len()
        invariant
            i <= geo.vertices@.len(),
            vertices@.len() == i,
            forall|j: int| 0 <= j < i ==> vertices@[j] == geo.vertices@[j],
        decreases geo.vertices@.len() - i,
    {
        vertices.push(geo.vertices[i]);
        i += 1;
    }
    proof {
        assert(vertices@ =~= geo.vertices@);
    }

    let mut face_vertex_counts: Vec<usize> = Vec::new();
    let mut face_indices: Vec<usize> = Vec::new();

    let nf = geo.faces.len();
    let mut k: usize = 0;
    while k < nf
        invariant
            k <= nf,
            nf == geo.faces@.len(),
            face_vertex_counts@.len() == k,
            forall|k2: int| 0 <= k2 < k ==> #[trigger] face_vertex_counts@[k2]
                == geo.faces@[k2].vertex_indices@.len(),
            face_indices@ == flat_upto(geo.faces@, k as int),
        decreases nf - k,
    {
        let face = &geo.faces[k];
        face_vertex_counts.push(face.vertex_indices.len());
        let m = face.vertex_indices.len();
        let mut j: usize = 0;
        while j < m
            invariant
                j <= m,
                k < nf,
                nf == geo.faces@.len(),
                face.vertex_indices@ == geo.faces@[k as int].vertex_indices@,
                m == geo.faces@[k as int].vertex_indices@.len(),
                face_indices@ == flat_upto(geo.faces@, k as int)
                    + geo.faces@[k as int].vertex_indices@.subrange(0, j as int),
            decreases m - j,
        {
            face_indices.push(face.vertex_indices[j]);
            proof {
                assert(geo.faces@[k as int].vertex_indices@.subrange(0, j + 1)
                    =~= geo.faces@[k as int].vertex_indices@.subrange(0, j as int)
                        .push(geo.faces@[k as int].vertex_indices@[j as int]));
                assert(face_indices@ =~= flat_upto(geo.faces@, k as int)
                    + geo.faces@[k as int].vertex_indices@.subrange(0, j + 1));
            }
            j += 1;
        }
        proof {
            assert(geo.faces@[k as int].vertex_indices@.subrange(0, m as int)
                =~= geo.faces@[k as int].vertex_indices@);
            assert(face_indices@ =~= flat_upto(geo.faces@, k + 1));
        }
        k += 1;
    }

    (vertices, face_vertex_counts, face_indices)
}

/// Convert flat arrays back to a `BlockotGeometry`.
///
/// For each face, consumes exactly its count of indices from the
/// flattened stream at a running offset. Fails if the stream is exhausted
/// before a count is consumed, if any consumed index is out of range for
/// the positions, or if indices remain once every count is consumed.
/// On success the returned store is marked stale so a consumer rebuilds.
pub fn from_packed_arrays(
    positions: &Vec<Vec3>,
    face_vertex_counts: &Vec<usize>,
    face_indices: &Vec<usize>,
) -> (r: Result<BlockotGeometry, DecodeError>)
    ensures
        r is Ok <==> wire_ok(positions@.len() as int, face_vertex_counts@, face_indices@),
        r matches Ok(g) ==> {
            &&& g.vertices@ == positions@
            &&& g.faces@.len() == face_vertex_counts@.len()
            &&& forall|k: int|
                0 <= k < g.faces@.len() ==> #[trigger] g.faces@[k].vertex_indices@
                    == face_indices@.subrange(
                    csum(face_vertex_counts@, k),
                    csum(face_vertex_counts@, k + 1),
                )
            &&& g.dirty
            &&& mesh_wf(g)
        },
        r == Err::<BlockotGeometry, DecodeError>(DecodeError::IndexOutOfRange) <==> has_bad_index(
            face_indices@,
            positions@.len() as int,
            spec_min(
                csum(face_vertex_counts@, face_vertex_counts@.len() as int),
                face_indices@.len() as int,
            ),
        ),
        r == Err::<BlockotGeometry, DecodeError>(DecodeError::NotEnoughIndices) <==> {
            &&& csum(face_vertex_counts@, face_vertex_counts@.len() as int) > face_indices@.len()
            &&& !has_bad_index(face_indices@, positions@.len() as int, face_indices@.len() as int)
        },
        r == Err::<BlockotGeometry, DecodeError>(DecodeError::TrailingIndices) <==> {
            &&& csum(face_vertex_counts@, face_vertex_counts@.len() as int) < face_indices@.len()
            &&& !has_bad_index(
                face_indices@,
                positions@.len() as int,
                csum(face_vertex_counts@, face_vertex_counts@.len() as int),
            )
        },
{
    let plen = positions.len();
    let n = face_indices.len();

    let mut vertices: Vec<Vec3> = Vec::new();
    let mut i: usize = 0;
    while i < positions.len()
        invariant
            i <= positions@.len(),
            vertices@.len() == i,
            forall|j: int| 0 <= j < i ==> vertices@[j] == positions@[j],
        decreases positions@.len() - i,
    {
        vertices.push(positions[i]);
        i += 1;
    }
    proof {
        assert(vertices@ =~= positions@);
    }

    let ghost counts = face_vertex_counts@;
    let ghost total = csum(counts, counts.len() as int);

    let mut faces: Vec<Face> = Vec::new();
    let mut offset: usize = 0;
    let nc = face_vertex_counts.len();
    let mut k: usize = 0;
    while k < nc
        invariant
            k <= nc,
            nc == counts.len(),
            counts == face_vertex_counts@,
            total == csum(counts, counts.len() as int),
            n == face_indices@.len(),
            plen == positions@.len(),
            offset == csum(counts, k as int),
            offset <= n,
            faces@.len() == k,
            forall|k2: int|
                0 <= k2 < k ==> #[trigger] faces@[k2].vertex_indices@ == face_indices@.subrange(
                    csum(counts, k2),
                    csum(counts, k2 + 1),
                ),
            !has_bad_index(face_indices@, plen as int, offset as int),
        decreases nc - k,
    {
        let c = face_vertex_counts[k];
        let mut fvec: Vec<usize> = Vec::new();
        let mut j: usize = 0;
        while j < c
            invariant
                j <= c,
                c == counts[k as int],
                k < nc,
                nc == counts.len(),
                counts == face_vertex_counts@,
                total == csum(counts, counts.len() as int),
                n == face_indices@.len(),
                plen == positions@.len(),
                offset == csum(counts, k as int),
                offset + j <= n,
                fvec@.len() == j,
                forall|j2: int| 0 <= j2 < j ==> #[trigger] fvec@[j2] == face_indices@[offset + j2],
                !has_bad_index(face_indices@, plen as int, offset + j),
            decreases c - j,
        {
            let p = offset + j;
            if p >= n {
                proof {
                    // The whole stream was consumed without a bad index,
                    // yet face k still demands more.
                    assert(offset + j == n);
                    assert(csum(counts, k + 1) == csum(counts, k as int) + c);
                    lemma_csum_mono(counts, k + 1, counts.len() as int);
                    assert(total > n);
                }
                return Err(DecodeError::NotEnoughIndices);
            }
            let idx = face_indices[p];
            if idx >= plen {
                proof {
                    assert(csum(counts, k + 1) == csum(counts, k as int) + c);
                    lemma_csum_mono(counts, k + 1, counts.len() as int);
                    assert(p < total && p < n);
                    assert(face_indices@[p as int] >= plen);
                    assert(has_bad_index(
                        face_indices@,
                        plen as int,
                        spec_min(total, n as int),
                    ));
                }
                return Err(DecodeError::IndexOutOfRange);
            }
            fvec.push(idx);
            proof {
                assert(!has_bad_index(face_indices@, plen as int, offset + j + 1));
            }
            j += 1;
        }
        faces.push(Face::new(fvec));
        proof {
            assert(csum(counts, k + 1) == csum(counts, k as int) + c);
            assert(faces@[k as int].vertex_indices@ =~= face_indices@.subrange(
                csum(counts, k as int),
                csum(counts, k + 1),
            ));
        }
        offset = offset + c;
        k += 1;
    }

    if offset != n {
        proof {
            assert(total == offset < n);
        }
        return Err(DecodeError::TrailingIndices);
    }

    let geo = BlockotGeometry { vertices, faces, dirty: true };
    proof {
        assert(total == n);
        assert(wire_ok(plen as int, counts, face_indices@));
        assert forall|k2: int, j2: int|
            0 <= k2 < geo.faces@.len() && 0 <= j2 < geo.faces@[k2].vertex_indices@.len()
                implies #[trigger] geo.faces@[k2].vertex_indices@[j2] < geo.vertices@.len() by {
            lemma_csum_mono(counts, 0, k2);
            lemma_csum_mono(counts, k2 + 1, counts.len() as int);
            assert(csum(counts, k2 + 1) == csum(counts, k2) + counts[k2]);
            assert(geo.faces@[k2].vertex_indices@[j2] == face_indices@[csum(counts, k2) + j2]);
            assert(!has_bad_index(face_indices@, plen as int, n as int));
            assert(face_indices@[csum(counts, k2) + j2] < plen);
        }
        assert(mesh_wf(geo));
    }
    Ok(geo)
}

/// Smaller of two integers.
pub open spec fn spec_min(a: int, b: int) -> int {
    if a <= b {
        a
    } else {
        b
    }
}

/// The counts a face sequence encodes to, pointwise.
pub open spec fn counts_match(faces: Seq<Face>, counts: Seq<usize>) -> bool {
    &&& counts.len() == faces.len()
    &&& forall|k: int| 0 <= k < faces.len() ==> #[trigger] counts[k] == faces[k].vertex_indices@.len()
}

proof fn lemma_flat_len(faces: Seq<Face>, counts: Seq<usize>, m: int)
    requires
        counts_match(faces, counts),
        0 <= m <= faces.len(),
    ensures
        flat_upto(faces, m).len() == csum(counts, m),
    decreases m,
{
    if m > 0 {
        lemma_flat_len(faces, counts, m - 1);
    }
}

proof fn lemma_flat_in_range(faces: Seq<Face>, plen: int, m: int)
    requires
        0 <= m <= faces.len(),
        forall|k: int, j: int|
            0 <= k < faces.len() && 0 <= j < faces[k].vertex_indices@.len()
                ==> #[trigger] faces[k].vertex_indices@[j] < plen,
    ensures
        !has_bad_index(flat_upto(faces, m), plen, flat_upto(faces, m).len() as int),
    decreases m,
{
    if m > 0 {
        lemma_flat_in_range(faces, plen, m - 1);
    }
}

proof fn lemma_flat_slice(faces: Seq<Face>, counts: Seq<usize>, m: int, k: int)
    requires
        counts_match(faces, counts),
        0 <= k < m <= faces.len(),
    ensures
        flat_upto(faces, m).subrange(csum(counts, k), csum(counts, k + 1))
            == faces[k].vertex_indices@,
    decreases m,
{
    lemma_flat_len(faces, counts, m - 1);
    lemma_csum_mono(counts, 0, k);
    if k == m - 1 {
        assert(flat_upto(faces, m).subrange(csum(counts, k), csum(counts, k + 1))
            =~= faces[k].vertex_indices@);
    } else {
        lemma_flat_slice(faces, counts, m - 1, k);
        lemma_csum_mono(counts, k + 1, m - 1);
        assert(flat_upto(faces, m).subrange(csum(counts, k), csum(counts, k + 1))
            =~= flat_upto(faces, m - 1).subrange(csum(counts, k), csum(counts, k + 1)));
    }
}

/// Round-trip law: a well-formed mesh survives encoding untouched. The
/// arrays that `to_packed_arrays` produces for it satisfy `wire_ok`, so
/// `from_packed_arrays` accepts them, and the faces it carves back out of
/// the flattened stream are exactly the faces that went in.
pub proof fn lemma_round_trip(faces: Seq<Face>, counts: Seq<usize>, indices: Seq<usize>, plen: int)
    requires
        counts_match(faces, counts),
        indices == flat_of(faces),
        forall|k: int, j: int|
            0 <= k < faces.len() && 0 <= j < faces[k].vertex_indices@.len()
                ==> #[trigger] faces[k].vertex_indices@[j] < plen,
    ensures
        wire_ok(plen, counts, indices),
        forall|k: int|
            0 <= k < counts.len() ==> #[trigger] indices.subrange(
                csum(counts, k),
                csum(counts, k + 1),
            ) == faces[k].vertex_indices@,
{
    lemma_flat_len(faces, counts, faces.len() as int);
    lemma_flat_in_range(faces, plen, faces.len() as int);
    assert forall|k: int| 0 <= k < counts.len() implies #[trigger] indices.subrange(
        csum(counts, k),
        csum(counts, k + 1),
    ) == faces[k].vertex_indices@ by {
        lemma_flat_slice(faces, counts, faces.len() as int, k);
    }
}

} // verus!
