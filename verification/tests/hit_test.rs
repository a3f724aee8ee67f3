use blockot::hit_test::find_closest_vertex;
use blockot::math::Vec2;

// Screen positions are in micro-pixels: 1_000_000 units per pixel.
// The reference threshold of 15 pixels is 15_000_000 micro-pixels.
const THRESHOLD: i32 = 15_000_000;

fn px(x: i64, y: i64) -> Vec2 {
    Vec2::new((x * 1_000_000) as i32, (y * 1_000_000) as i32)
}

#[test]
fn test_find_closest_vertex_found() {
    let positions = vec![
        Some(px(100, 100)),
        Some(px(200, 200)),
        Some(px(300, 300)),
    ];
    let mouse = px(105, 105);

    let result = find_closest_vertex(&positions, mouse, THRESHOLD);
    assert_eq!(result, Some(0));
}

#[test]
fn test_find_closest_vertex_none_in_range() {
    let positions = vec![Some(px(100, 100)), Some(px(200, 200))];
    let mouse = px(500, 500);

    let result = find_closest_vertex(&positions, mouse, THRESHOLD);
    assert_eq!(result, None);
}

#[test]
fn test_find_closest_vertex_closest_wins() {
    let positions = vec![
        Some(px(100, 100)), // distance ~14.14 px
        Some(px(105, 105)), // distance ~7.07 px (closer)
        Some(px(200, 200)),
    ];
    let mouse = px(110, 110);

    let result = find_closest_vertex(&positions, mouse, THRESHOLD);
    assert_eq!(result, Some(1));
}

#[test]
fn test_find_closest_vertex_behind_camera_skipped() {
    let positions = vec![
        None, // behind camera
        Some(px(100, 100)),
        None, // behind camera
    ];
    let mouse = px(105, 105);

    let result = find_closest_vertex(&positions, mouse, THRESHOLD);
    assert_eq!(result, Some(1));
}

#[test]
fn test_find_closest_vertex_empty_list() {
    let positions: Vec<Option<Vec2>> = vec![];
    let mouse = px(100, 100);

    let result = find_closest_vertex(&positions, mouse, THRESHOLD);
    assert_eq!(result, None);
}

#[test]
fn test_find_closest_vertex_all_behind_camera() {
    let positions = vec![None, None, None];
    let mouse = px(100, 100);

    let result = find_closest_vertex(&positions, mouse, THRESHOLD);
    assert_eq!(result, None);
}

#[test]
fn test_find_closest_vertex_exact_threshold_boundary() {
    // Vertex exactly at threshold distance should NOT be selected (strict < comparison)
    let positions = vec![Some(px(115, 100))];
    let mouse = px(100, 100);

    let result = find_closest_vertex(&positions, mouse, THRESHOLD);
    assert_eq!(result, None);
}

#[test]
fn test_find_closest_vertex_just_inside_threshold() {
    // One micro-pixel inside the threshold is selected.
    let positions = vec![Some(Vec2::new(114_999_999, 100_000_000))];
    let mouse = px(100, 100);

    let result = find_closest_vertex(&positions, mouse, THRESHOLD);
    assert_eq!(result, Some(0));
}

#[test]
fn test_find_closest_vertex_tie_earliest_index_wins() {
    // Two vertices at the same distance from the mouse: the lower index wins.
    let positions = vec![
        Some(px(95, 100)),
        Some(px(105, 100)),
    ];
    let mouse = px(100, 100);

    let result = find_closest_vertex(&positions, mouse, THRESHOLD);
    assert_eq!(result, Some(0));
}

#[test]
fn test_find_closest_vertex_invisible_nearest_never_selected() {
    // The numerically closest vertex is not visible; the farther visible
    // one is selected instead.
    let positions = vec![None, Some(px(110, 100))];
    let mouse = px(100, 100);

    let result = find_closest_vertex(&positions, mouse, THRESHOLD);
    assert_eq!(result, Some(1));
}
