use blockot::face::Face;
use blockot::math::Vec3;
use blockot::mesh::BlockotGeometry;
use blockot::primitives::unit_cube;
use blockot::serialization::{from_packed_arrays, to_packed_arrays, DecodeError};

/// Serialize and deserialize a unit cube, verify exact match.
#[test]
fn test_serialization_roundtrip_integration() {
    let original = unit_cube();
    let (verts, counts, indices) = to_packed_arrays(&original);
    let restored = from_packed_arrays(&verts, &counts, &indices).unwrap();
    assert_eq!(
        original, restored,
        "Roundtrip should preserve geometry exactly"
    );
}

/// Serialize and verify flat array sizes for the cube.
#[test]
fn test_cube_serialization_sizes() {
    let cube = unit_cube();
    let (v, c, i) = to_packed_arrays(&cube);

    assert_eq!(v.len(), 8, "Cube should have 8 vertices");
    assert_eq!(c.len(), 6, "Cube should have 6 faces");
    assert_eq!(
        i.len(),
        24,
        "Cube should have 24 indices (6 quads * 4 verts)"
    );

    // Verify all faces are quads
    for (idx, count) in c.iter().enumerate() {
        assert_eq!(*count, 4, "Face {} should be a quad", idx);
    }
}

/// Empty geometry roundtrip.
#[test]
fn test_empty_geometry_serialization() {
    let empty = BlockotGeometry::new();
    let (verts, counts, indices) = to_packed_arrays(&empty);

    assert_eq!(verts.len(), 0, "Empty geometry should have no vertices");
    assert_eq!(counts.len(), 0, "Empty geometry should have no faces");
    assert_eq!(indices.len(), 0, "Empty geometry should have no indices");

    let restored = from_packed_arrays(&verts, &counts, &indices).unwrap();
    assert_eq!(empty, restored, "Empty geometry roundtrip should work");
}

/// Geometry with modified vertices roundtrips.
#[test]
fn test_modified_geometry_roundtrip() {
    let mut geo = unit_cube();

    // Modify some vertices
    geo.vertices[0] = Vec3::new(-1_000_000, -1_000_000, -1_000_000);
    geo.vertices[1] = Vec3::new(1_000_000, -1_000_000, -1_000_000);
    geo.vertices[6] = Vec3::new(1_000_000, 1_000_000, 1_000_000);

    let (verts, counts, indices) = to_packed_arrays(&geo);
    let restored = from_packed_arrays(&verts, &counts, &indices).unwrap();

    assert_eq!(
        geo, restored,
        "Modified geometry should roundtrip correctly"
    );
}

/// Invalid data handling: the decoder rejects the whole wire form.
#[test]
fn test_invalid_data_returns_none() {
    // Test case: vertex index out of bounds
    let vertices = vec![Vec3::new(0, 0, 0)];
    let counts = vec![1usize];
    let indices = vec![100usize]; // Index 100 doesn't exist

    assert!(
        from_packed_arrays(&vertices, &counts, &indices).is_err(),
        "Out of bounds vertex index should be rejected"
    );

    // Test case: mismatched counts and indices
    let vertices = vec![Vec3::new(0, 0, 0), Vec3::new(1_000_000, 1_000_000, 1_000_000)];
    let counts = vec![3usize]; // Claims 3 vertices in one face
    let indices = vec![0usize, 1]; // Only 2 indices provided

    assert!(
        from_packed_arrays(&vertices, &counts, &indices).is_err(),
        "Mismatched count and indices should be rejected"
    );
}

/// Triangle geometry roundtrip.
#[test]
fn test_triangle_geometry_roundtrip() {
    let mut geo = BlockotGeometry::new();

    // Create a simple triangle
    geo.vertices.push(Vec3::new(0, 0, 0));
    geo.vertices.push(Vec3::new(1_000_000, 0, 0));
    geo.vertices.push(Vec3::new(0, 1_000_000, 0));
    geo.faces.push(Face::triangle(0, 1, 2));

    let (verts, counts, indices) = to_packed_arrays(&geo);

    assert_eq!(verts.len(), 3, "Triangle should have 3 vertices");
    assert_eq!(counts.len(), 1, "Should have 1 face");
    assert_eq!(counts[0], 3, "Face should have 3 vertices");
    assert_eq!(indices.len(), 3, "Should have 3 indices");

    let restored = from_packed_arrays(&verts, &counts, &indices).unwrap();
    assert_eq!(
        geo, restored,
        "Triangle geometry should roundtrip correctly"
    );
}

/// Large coordinate values roundtrip exactly.
#[test]
fn test_large_vertex_values() {
    let mut geo = BlockotGeometry::new();

    geo.vertices.push(Vec3::new(1_000_000_000, -1_000_000_000, 500_000_000));
    geo.vertices.push(Vec3::new(-500_000_000, 1_000_000_000, -1_000_000_000));
    geo.vertices.push(Vec3::new(100, 10, 1));
    geo.faces.push(Face::triangle(0, 1, 2));

    let (verts, counts, indices) = to_packed_arrays(&geo);
    let restored = from_packed_arrays(&verts, &counts, &indices).unwrap();

    assert_eq!(
        geo, restored,
        "Large and small vertex values should roundtrip correctly"
    );
}

/// Each structural violation reports its own error.
#[test]
fn test_decode_error_variants() {
    let vertices = vec![Vec3::new(0, 0, 0), Vec3::new(1, 1, 1)];

    // A consumed index out of range
    assert_eq!(
        from_packed_arrays(&vertices, &vec![1], &vec![2]),
        Err(DecodeError::IndexOutOfRange)
    );

    // The stream exhausted before a face got its count
    assert_eq!(
        from_packed_arrays(&vertices, &vec![3], &vec![0, 1]),
        Err(DecodeError::NotEnoughIndices)
    );

    // Unconsumed indices remain after all counts
    assert_eq!(
        from_packed_arrays(&vertices, &vec![1], &vec![0, 1]),
        Err(DecodeError::TrailingIndices)
    );

    // A bad index wins over a shortage when it is scanned first
    assert_eq!(
        from_packed_arrays(&vertices, &vec![3], &vec![0, 9]),
        Err(DecodeError::IndexOutOfRange)
    );
}

/// A decoded store is marked stale and carries the faces cut at the
/// count boundaries.
#[test]
fn test_decode_partitions_at_count_boundaries() {
    let vertices = vec![
        Vec3::new(0, 0, 0),
        Vec3::new(1_000_000, 0, 0),
        Vec3::new(1_000_000, 1_000_000, 0),
        Vec3::new(0, 1_000_000, 0),
    ];
    let counts = vec![3usize, 4, 3];
    let indices = vec![0usize, 1, 2, 0, 1, 2, 3, 3, 2, 1];

    let geo = from_packed_arrays(&vertices, &counts, &indices).unwrap();
    assert!(geo.dirty);
    assert_eq!(geo.vertices, vertices);
    assert_eq!(geo.faces.len(), 3);
    assert_eq!(geo.faces[0], Face::triangle(0, 1, 2));
    assert_eq!(geo.faces[1], Face::quad(0, 1, 2, 3));
    assert_eq!(geo.faces[2], Face::triangle(3, 2, 1));
}

/// A face of fewer than 3 indices is carried through the codec verbatim.
#[test]
fn test_decode_accepts_short_faces() {
    let vertices = vec![Vec3::new(0, 0, 0), Vec3::new(1, 1, 1)];
    let counts = vec![2usize];
    let indices = vec![0usize, 1];

    let geo = from_packed_arrays(&vertices, &counts, &indices).unwrap();
    assert_eq!(geo.faces.len(), 1);
    assert_eq!(geo.faces[0].vertex_count(), 2);

    let (_, counts2, indices2) = to_packed_arrays(&geo);
    assert_eq!(counts2, counts);
    assert_eq!(indices2, indices);
}
