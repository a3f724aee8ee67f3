//! Screen-space vertex hit testing.
//!
//! Pure function for finding the closest projected vertex to a pointer
//! position. Vertices behind the camera are passed as `None` and never
//! selected.

use vstd::prelude::*;
use crate::math::Vec2;

verus! {

/// Squared distance from the projection of vertex `j` to `mouse`, defined
/// where the vertex is visible.
pub open spec fn dist_at(positions: Seq<Option<Vec2>>, j: int, mouse: Vec2) -> int {
    positions[j].unwrap().spec_dist_sq(mouse)
}

/// Squared distance between two screen positions, exactly.
fn dist_sq(p: Vec2, q: Vec2) -> (d: i128)
    ensures
        d == p.spec_dist_sq(q),
{
    let dx: i64 = p.x as i64 - q.x as i64;
    let dy: i64 = p.y as i64 - q.y as i64;
    let wx: i128 = dx as i128;
    let wy: i128 = dy as i128;
    proof {
        assert(0 <= wx * wx < 0x1_0000_0000_0000_0000i128) by (nonlinear_arith)
            requires
                -0x1_0000_0000i128 < wx && wx < 0x1_0000_0000i128;
        assert(0 <= wy * wy < 0x1_0000_0000_0000_0000i128) by (nonlinear_arith)
            requires
                -0x1_0000_0000i128 < wy && wy < 0x1_0000_0000i128;
    }
    wx * wx + wy * wy
}

/// Find the closest projected vertex to the mouse position, provided its
/// squared distance is strictly below `threshold` squared. Ties go to the
/// earliest index; invisible vertices (and an empty list) yield `None`.
pub fn find_closest_vertex(
    screen_positions: &Vec<Option<Vec2>>,
    mouse_pos: Vec2,
    threshold: i32,
) -> (r: Option<usize>)
    ensures
        r matches Some(i) ==> {
            &&& 0 <= i < screen_positions@.len()
            &&& screen_positions@[i as int] is Some
            &&& dist_at(screen_positions@, i as int, mouse_pos) < threshold * threshold
            &&& forall|j: int|
                0 <= j < screen_positions@.len() && screen_positions@[j] is Some
                    ==> #[trigger] dist_at(screen_positions@, j, mouse_pos) >= dist_at(
                    screen_positions@,
                    i as int,
                    mouse_pos,
                )
            &&& forall|j: int|
                0 <= j < i && screen_positions@[j] is Some ==> #[trigger] dist_at(
                    screen_positions@,
                    j,
                    mouse_pos,
                ) > dist_at(screen_positions@, i as int, mouse_pos)
        },
        r is None ==> forall|j: int|
            0 <= j < screen_positions@.len() && screen_positions@[j] is Some ==> #[trigger] dist_at(
                screen_positions@,
                j,
                mouse_pos,
            ) >= threshold * threshold,
{
    let thr: i128 = threshold as i128;
    proof {
        assert(0 <= thr * thr && thr * thr < 0x1_0000_0000_0000_0000i128) by (nonlinear_arith)
            requires
                -0x1_0000_0000i128 < thr && thr < 0x1_0000_0000i128;
        assert(thr * thr == threshold * threshold);
    }
    let mut best_index: Option<usize> = None;
    let mut best_dist_sq: i128 = thr * thr;

    let n = screen_positions.len();
    let mut i: usize = 0;
    while i < n
        invariant
            i <= n,
            n == screen_positions@.len(),
            best_index is None ==> best_dist_sq == threshold * threshold,
            best_index matches Some(b) ==> {
                &&& 0 <= b < i
                &&& screen_positions@[b as int] is Some
                &&& best_dist_sq == dist_at(screen_positions@, b as int, mouse_pos)
                &&& best_dist_sq < threshold * threshold
                &&& forall|j: int|
                    0 <= j < b && screen_positions@[j] is Some ==> #[trigger] dist_at(
                        screen_positions@,
                        j,
                        mouse_pos,
                    ) > best_dist_sq
            },
            forall|j: int|
                0 <= j < i && screen_positions@[j] is Some ==> #[trigger] dist_at(
                    screen_positions@,
                    j,
                    mouse_pos,
                ) >= best_dist_sq,
        decreases n - i,
    {
        match screen_positions[i] {
            Some(p) => {
                let d = dist_sq(p, mouse_pos);
                if d < best_dist_sq {
                    best_dist_sq = d;
                    best_index = Some(i);
                }
            },
            None => {},
        }
        i += 1;
    }

    best_index
}

} // verus!
