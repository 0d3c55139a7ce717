//! Toroidal boundary correction and toroidal-aware tracking: entities that
//! drift past an edge re-enter at the opposite edge, and wrap-following
//! pursuers aim at the nearest toroidal image of their target.

use vstd::prelude::*;

use crate::geom::{abs_i64, abs_val, in_box, Vec2};
use crate::{COORD_LIMIT, HALF_EXTENT_LIMIT, RADIUS_LIMIT};

verus! {

/// One axis of toroidal correction: past either edge (half extent plus the
/// entity's wrap margin) the coordinate re-enters at the opposite edge.
pub open spec fn wrap_coord_spec(x: int, bound: int) -> int {
    if x < -bound {
        bound
    } else if x > bound {
        -bound
    } else {
        x
    }
}

pub fn wrap_coord(x: i64, bound: i64) -> (r: i64)
    requires
        0 <= bound <= HALF_EXTENT_LIMIT + RADIUS_LIMIT,
    ensures
        r == wrap_coord_spec(x as int, bound as int),
        -bound <= r <= bound,
{
    if x < -bound {
        bound
    } else if x > bound {
        -bound
    } else {
        x
    }
}

/// Correct a position after integration: each axis independently re-enters
/// at the opposite edge once it is more than the entity's own margin beyond
/// the play-area half extent.
pub fn wraparound(p: Vec2, half_w: i64, half_h: i64, margin: i64) -> (r: Vec2)
    requires
        0 <= half_w <= HALF_EXTENT_LIMIT,
        0 <= half_h <= HALF_EXTENT_LIMIT,
        0 <= margin <= RADIUS_LIMIT,
    ensures
        r.x == wrap_coord_spec(p.x as int, half_w + margin),
        r.y == wrap_coord_spec(p.y as int, half_h + margin),
        -(half_w + margin) <= r.x <= half_w + margin,
        -(half_h + margin) <= r.y <= half_h + margin,
{
    Vec2 { x: wrap_coord(p.x, half_w + margin), y: wrap_coord(p.y, half_h + margin) }
}

/// Law: wraparound is idempotent — correcting a corrected coordinate leaves
/// it unchanged, so no entity is ever wrapped twice in a tick.
pub proof fn lemma_wraparound_idempotent(x: int, bound: int)
    requires
        0 <= bound,
    ensures
        wrap_coord_spec(wrap_coord_spec(x, bound), bound) == wrap_coord_spec(x, bound),
{
}

/// One axis of toroidal-nearest targeting: when the straight-line delta
/// exceeds half the play-area extent, the target is reflected one extent
/// length toward the shorter wrapped path.
pub open spec fn wrap_track_x(from: Vec2, to: Vec2, width: int) -> int {
    let d = to.x - from.x;
    if abs_val(d) > width / 2 {
        if d < 0 {
            to.x + width
        } else {
            to.x - width
        }
    } else {
        to.x as int
    }
}

pub open spec fn wrap_track_y(from: Vec2, to: Vec2, height: int) -> int {
    let d = to.y - from.y;
    if abs_val(d) > height / 2 {
        if d < 0 {
            to.y + height
        } else {
            to.y - height
        }
    } else {
        to.y as int
    }
}

/// Whenever the straight-line delta to the target exceeds half the extent
/// (but fits within one extent, as every wrapped position does), the
/// corrected target is strictly nearer: the pursuer takes the short way
/// around the torus instead of circling the long way.
pub proof fn lemma_tracking_shortens(from: Vec2, to: Vec2, width: int, height: int)
    requires
        0 <= width,
        0 <= height,
    ensures
        abs_val(to.x - from.x) > width / 2 && abs_val(to.x - from.x) <= width ==> abs_val(
            wrap_track_x(from, to, width) - from.x,
        ) <= width / 2 && abs_val(wrap_track_x(from, to, width) - from.x) < abs_val(to.x - from.x),
        abs_val(to.y - from.y) > height / 2 && abs_val(to.y - from.y) <= height ==> abs_val(
            wrap_track_y(from, to, height) - from.y,
        ) <= height / 2 && abs_val(wrap_track_y(from, to, height) - from.y) < abs_val(
            to.y - from.y,
        ),
{
}

/// Replace a tracking target by its toroidal-nearest equivalent, so a
/// wrap-following pursuer takes the short way around the torus.
pub fn wraparound_tracking_position(from: Vec2, to: Vec2, width: i64, height: i64) -> (r: Vec2)
    requires
        in_box(from, COORD_LIMIT as int),
        in_box(to, COORD_LIMIT as int),
        0 <= width <= 2 * HALF_EXTENT_LIMIT,
        0 <= height <= 2 * HALF_EXTENT_LIMIT,
    ensures
        r.x == wrap_track_x(from, to, width as int),
        r.y == wrap_track_y(from, to, height as int),
        in_box(r, COORD_LIMIT as int + 2 * HALF_EXTENT_LIMIT),
{
    let dx = to.x - from.x;
    let dy = to.y - from.y;
    let position_x: i64 = if abs_i64(dx) > width / 2 {
        if dx < 0 {
            to.x + width
        } else {
            to.x - width
        }
    } else {
        to.x
    };
    let position_y: i64 = if abs_i64(dy) > height / 2 {
        if dy < 0 {
            to.y + height
        } else {
            to.y - height
        }
    } else {
        to.y
    };
    Vec2 { x: position_x, y: position_y }
}

} // verus!
