//! Camera follow: an exponential-smoothing pursuit that steers the scroll
//! offset toward the midpoint spread of the two players, one axis at a
//! time.  No clamping to the level bounds is applied.

use vstd::prelude::*;

use crate::fixed::{abs_spec, fx_half, fx_mul, fx_mul_spec, sat_add, sat_add_spec, trunc_div};
use crate::math::{vec2_wf, Vec2};

verus! {

/// The raw pursuit term for one axis: half the players' distance, less the
/// camera's current offset, less half the viewport extent, plus the axis
/// margin.
pub open spec fn follow_term(pa: int, pb: int, cam: int, win: int, margin: int) -> int {
    trunc_div(abs_spec(pa - pb), 2) - cam - trunc_div(win, 2) + margin
}

/// Steer the camera one tick toward framing both players: each axis moves
/// by its pursuit term scaled by `dt`.  The viewport extents are
/// fixed-point quantities.
pub fn camera_follow(camera: &mut Vec2, p0: Vec2, p1: Vec2, win_w: i64, win_h: i64, dt: i64)
    requires
        vec2_wf(*old(camera)),
        vec2_wf(p0),
        vec2_wf(p1),
        0 <= win_w <= 2_000_000_000,
        0 <= win_h <= 2_000_000_000,
        0 < dt <= 10_000,
    ensures
        final(camera).x == sat_add_spec(
            old(camera).x as int,
            fx_mul_spec(follow_term(p0.x as int, p1.x as int, old(camera).x as int, win_w as int, 24_250), dt as int),
        ),
        final(camera).y == sat_add_spec(
            old(camera).y as int,
            fx_mul_spec(follow_term(p0.y as int, p1.y as int, old(camera).y as int, win_h as int, 14_750), dt as int),
        ),
        -1_000_000_000 <= final(camera).x <= 1_000_000_000,
        -1_000_000_000 <= final(camera).y <= 1_000_000_000,
{
    let dx: i64 = if p0.x >= p1.x {
        p0.x - p1.x
    } else {
        p1.x - p0.x
    };
    let tx: i64 = fx_half(dx) - camera.x - fx_half(win_w) + 24_250;
    camera.x = sat_add(camera.x, fx_mul(tx, dt));
    let dy: i64 = if p0.y >= p1.y {
        p0.y - p1.y
    } else {
        p1.y - p0.y
    };
    let ty: i64 = fx_half(dy) - camera.y - fx_half(win_h) + 14_750;
    camera.y = sat_add(camera.y, fx_mul(ty, dt));
}

} // verus!
