//! Axis-separated collision resolution against the static tile set.  Each
//! axis is integrated on its own and then resolved against every tile in
//! order: an entity that overlaps a tile is snapped flush to the near edge
//! of the tile in its direction of travel.

use vstd::prelude::*;

use crate::geom::{rect_wf, tile_wf, Rect};

verus! {

/// Does the box at `(rx, ry)` of extent `w` by `h` overlap the tile on a
/// region of positive area?
pub open spec fn overlaps(rx: int, ry: int, w: int, h: int, t: Rect) -> bool {
    &&& rx < t.x + t.w
    &&& t.x < rx + w
    &&& ry < t.y + t.h
    &&& t.y < ry + h
}

/// The horizontal position a box of width `w` is snapped to when it
/// overlaps tile `t` while travelling with horizontal velocity `vx`.
pub open spec fn x_snap(rx: int, w: int, vx: int, t: Rect) -> int {
    if vx > 0 {
        t.x - w
    } else if vx < 0 {
        t.x + t.w
    } else {
        rx
    }
}

/// Horizontal resolution against one tile: `(rect x, fixed-point x)` after
/// the snap, the fixed-point position re-derived from the snapped box.
pub open spec fn resolve_x_one(rx: int, px: int, w: int, ry: int, h: int, vx: int, t: Rect) -> (
    int,
    int,
) {
    if overlaps(rx, ry, w, h, t) && vx != 0 {
        (x_snap(rx, w, vx, t), x_snap(rx, w, vx, t) * 1000)
    } else {
        (rx, px)
    }
}

/// Horizontal resolution against every tile in order.
pub open spec fn resolve_x_seq(
    rx: int,
    px: int,
    w: int,
    ry: int,
    h: int,
    vx: int,
    tiles: Seq<Rect>,
) -> (int, int)
    decreases tiles.len(),
{
    if tiles.len() == 0 {
        (rx, px)
    } else {
        let s = resolve_x_one(rx, px, w, ry, h, vx, tiles[0]);
        resolve_x_seq(s.0, s.1, w, ry, h, vx, tiles.skip(1))
    }
}

/// Vertical resolution against one tile: `(rect y, fixed-point y, vertical
/// velocity, grounded)`.  Landing on a tile top sets `grounded`; hitting a
/// tile bottom zeroes the upward velocity.
pub open spec fn resolve_y_one(
    ry: int,
    py: int,
    h: int,
    rx: int,
    w: int,
    vy: int,
    grounded: bool,
    t: Rect,
) -> (int, int, int, bool) {
    if overlaps(rx, ry, w, h, t) && vy > 0 {
        (t.y - h, (t.y - h) * 1000, vy, true)
    } else if overlaps(rx, ry, w, h, t) && vy < 0 {
        (t.y + t.h, (t.y + t.h) * 1000, 0, grounded)
    } else {
        (ry, py, vy, grounded)
    }
}

/// Vertical resolution against every tile in order.
pub open spec fn resolve_y_seq(
    ry: int,
    py: int,
    h: int,
    rx: int,
    w: int,
    vy: int,
    grounded: bool,
    tiles: Seq<Rect>,
) -> (int, int, int, bool)
    decreases tiles.len(),
{
    if tiles.len() == 0 {
        (ry, py, vy, grounded)
    } else {
        let s = resolve_y_one(ry, py, h, rx, w, vy, grounded, tiles[0]);
        resolve_y_seq(s.0, s.1, h, rx, w, s.2, s.3, tiles.skip(1))
    }
}

/// Horizontal resolution of a patrolling wanderer against one tile: as the
/// player's, but each snap also flips the facing sign.
pub open spec fn wander_x_one(
    rx: int,
    px: int,
    dir: int,
    w: int,
    ry: int,
    h: int,
    vx: int,
    t: Rect,
) -> (int, int, int) {
    if overlaps(rx, ry, w, h, t) && vx != 0 {
        (x_snap(rx, w, vx, t), x_snap(rx, w, vx, t) * 1000, -dir)
    } else {
        (rx, px, dir)
    }
}

/// Horizontal wanderer resolution against every tile in order.
pub open spec fn wander_x_seq(
    rx: int,
    px: int,
    dir: int,
    w: int,
    ry: int,
    h: int,
    vx: int,
    tiles: Seq<Rect>,
) -> (int, int, int)
    decreases tiles.len(),
{
    if tiles.len() == 0 {
        (rx, px, dir)
    } else {
        let s = wander_x_one(rx, px, dir, w, ry, h, vx, tiles[0]);
        wander_x_seq(s.0, s.1, s.2, w, ry, h, vx, tiles.skip(1))
    }
}

/// Vertical resolution of a wanderer against one tile: snap only, no
/// grounded flag and no velocity change.
pub open spec fn wander_y_one(ry: int, py: int, h: int, rx: int, w: int, vy: int, t: Rect) -> (
    int,
    int,
) {
    if overlaps(rx, ry, w, h, t) && vy > 0 {
        (t.y - h, (t.y - h) * 1000)
    } else if overlaps(rx, ry, w, h, t) && vy < 0 {
        (t.y + t.h, (t.y + t.h) * 1000)
    } else {
        (ry, py)
    }
}

/// Vertical wanderer resolution against every tile in order.
pub open spec fn wander_y_seq(
    ry: int,
    py: int,
    h: int,
    rx: int,
    w: int,
    vy: int,
    tiles: Seq<Rect>,
) -> (int, int)
    decreases tiles.len(),
{
    if tiles.len() == 0 {
        (ry, py)
    } else {
        let s = wander_y_one(ry, py, h, rx, w, vy, tiles[0]);
        wander_y_seq(s.0, s.1, h, rx, w, vy, tiles.skip(1))
    }
}

/// A box approaching a tile with positive horizontal velocity is placed
/// flush against the tile's left edge and no longer intersects it; one
/// approaching with negative velocity is placed flush against the tile's
/// right edge, likewise clear of it.
pub proof fn lemma_snap_resolves(rx: int, ry: int, w: int, h: int, vx: int, t: Rect)
    requires
        overlaps(rx, ry, w, h, t),
        vx != 0,
        0 < w,
        0 < h,
        0 < t.w,
        0 < t.h,
    ensures
        vx > 0 ==> x_snap(rx, w, vx, t) + w == t.x,
        vx < 0 ==> x_snap(rx, w, vx, t) == t.x + t.w,
        !overlaps(x_snap(rx, w, vx, t), ry, w, h, t),
{
}

/// Every tile a valid collection holds.
pub open spec fn tiles_wf(tiles: Seq<Rect>) -> bool {
    forall|i: int| 0 <= i < tiles.len() ==> tile_wf(#[trigger] tiles[i])
}

/// Integrate nothing, resolve horizontally: snap the box against each tile
/// in order, re-deriving the fixed-point position at each snap.
pub fn resolve_axis_x(rect: &mut Rect, pos_x: &mut i64, vx: i64, tiles: &Vec<Rect>)
    requires
        rect_wf(*old(rect)),
        -2_000_000_000 <= *old(pos_x) <= 2_000_000_000,
        tiles_wf(tiles@),
    ensures
        (final(rect).x as int, *final(pos_x) as int) == resolve_x_seq(
            old(rect).x as int,
            *old(pos_x) as int,
            old(rect).w as int,
            old(rect).y as int,
            old(rect).h as int,
            vx as int,
            tiles@,
        ),
        final(rect).y == old(rect).y,
        final(rect).w == old(rect).w,
        final(rect).h == old(rect).h,
        rect_wf(*final(rect)),
        -2_000_000_000 <= *final(pos_x) <= 2_000_000_000,
{
    let ghost orig = (old(rect).x as int, *old(pos_x) as int);
    let ghost all = tiles@;
    let w = rect.w;
    let ry = rect.y;
    let h = rect.h;
    let mut i: usize = 0;
    proof {
        assert(all.skip(0) =~= all);
    }
    while i < tiles.len()
        invariant
            0 <= i <= all.len(),
            tiles@ == all,
            tiles_wf(all),
            rect.w == w,
            rect.y == ry,
            rect.h == h,
            rect_wf(*rect),
            -2_000_000_000 <= *pos_x <= 2_000_000_000,
            resolve_x_seq(
                rect.x as int,
                *pos_x as int,
                w as int,
                ry as int,
                h as int,
                vx as int,
                all.skip(i as int),
            ) == resolve_x_seq(orig.0, orig.1, w as int, ry as int, h as int, vx as int, all),
        decreases all.len() - i,
    {
        let t = tiles[i];
        proof {
            assert(all.skip(i as int)[0] == t);
            assert(all.skip(i as int).skip(1) =~= all.skip(i as int + 1));
        }
        if rect.has_intersection(&t) && vx != 0 {
            let nx: i64 = if vx > 0 {
                t.x - rect.w
            } else {
                t.x + t.w
            };
            rect.x = nx;
            *pos_x = nx * 1000;
        }
        i = i + 1;
    }
    proof {
        assert(all.skip(all.len() as int) =~= Seq::<Rect>::empty());
    }
}

/// Resolve vertically: snap against each tile in order; a landing sets
/// `grounded`, a ceiling hit zeroes the upward velocity.
pub fn resolve_axis_y(
    rect: &mut Rect,
    pos_y: &mut i64,
    vel_y: &mut i64,
    grounded: &mut bool,
    tiles: &Vec<Rect>,
)
    requires
        rect_wf(*old(rect)),
        -2_000_000_000 <= *old(pos_y) <= 2_000_000_000,
        -2_000_000_000 <= *old(vel_y) <= 2_000_000_000,
        tiles_wf(tiles@),
    ensures
        (
            final(rect).y as int,
            *final(pos_y) as int,
            *final(vel_y) as int,
            *final(grounded),
        ) == resolve_y_seq(
            old(rect).y as int,
            *old(pos_y) as int,
            old(rect).h as int,
            old(rect).x as int,
            old(rect).w as int,
            *old(vel_y) as int,
            *old(grounded),
            tiles@,
        ),
        final(rect).x == old(rect).x,
        final(rect).w == old(rect).w,
        final(rect).h == old(rect).h,
        rect_wf(*final(rect)),
        -2_000_000_000 <= *final(pos_y) <= 2_000_000_000,
        *final(vel_y) == *old(vel_y) || *final(vel_y) == 0,
{
    let ghost orig = (
        old(rect).y as int,
        *old(pos_y) as int,
        *old(vel_y) as int,
        *old(grounded),
    );
    let ghost all = tiles@;
    let h = rect.h;
    let rx = rect.x;
    let w = rect.w;
    let mut i: usize = 0;
    proof {
        assert(all.skip(0) =~= all);
    }
    while i < tiles.len()
        invariant
            0 <= i <= all.len(),
            tiles@ == all,
            tiles_wf(all),
            rect.h == h,
            rect.x == rx,
            rect.w == w,
            rect_wf(*rect),
            -2_000_000_000 <= *pos_y <= 2_000_000_000,
            *vel_y == orig.2 || *vel_y == 0,
            resolve_y_seq(
                rect.y as int,
                *pos_y as int,
                h as int,
                rx as int,
                w as int,
                *vel_y as int,
                *grounded,
                all.skip(i as int),
            ) == resolve_y_seq(orig.0, orig.1, h as int, rx as int, w as int, orig.2, orig.3, all),
        decreases all.len() - i,
    {
        let t = tiles[i];
        proof {
            assert(all.skip(i as int)[0] == t);
            assert(all.skip(i as int).skip(1) =~= all.skip(i as int + 1));
        }
        if rect.has_intersection(&t) {
            if *vel_y > 0 {
                rect.y = t.y - rect.h;
                *pos_y = (t.y - rect.h) * 1000;
                *grounded = true;
            } else if *vel_y < 0 {
                rect.y = t.y + t.h;
                *pos_y = (t.y + t.h) * 1000;
                *vel_y = 0;
            }
        }
        i = i + 1;
    }
    proof {
        assert(all.skip(all.len() as int) =~= Seq::<Rect>::empty());
    }
}

/// Resolve a wanderer horizontally: snap against each tile in order,
/// flipping the facing sign at every snap.
pub fn resolve_wander_x(rect: &mut Rect, pos_x: &mut i64, dir: &mut i64, vx: i64, tiles: &Vec<
    Rect,
>)
    requires
        rect_wf(*old(rect)),
        -2_000_000_000 <= *old(pos_x) <= 2_000_000_000,
        *old(dir) == 1 || *old(dir) == -1,
        tiles_wf(tiles@),
    ensures
        (final(rect).x as int, *final(pos_x) as int, *final(dir) as int) == wander_x_seq(
            old(rect).x as int,
            *old(pos_x) as int,
            *old(dir) as int,
            old(rect).w as int,
            old(rect).y as int,
            old(rect).h as int,
            vx as int,
            tiles@,
        ),
        final(rect).y == old(rect).y,
        final(rect).w == old(rect).w,
        final(rect).h == old(rect).h,
        rect_wf(*final(rect)),
        -2_000_000_000 <= *final(pos_x) <= 2_000_000_000,
        *final(dir) == 1 || *final(dir) == -1,
{
    let ghost orig = (old(rect).x as int, *old(pos_x) as int, *old(dir) as int);
    let ghost all = tiles@;
    let w = rect.w;
    let ry = rect.y;
    let h = rect.h;
    let mut i: usize = 0;
    proof {
        assert(all.skip(0) =~= all);
    }
    while i < tiles.len()
        invariant
            0 <= i <= all.len(),
            tiles@ == all,
            tiles_wf(all),
            rect.w == w,
            rect.y == ry,
            rect.h == h,
            rect_wf(*rect),
            -2_000_000_000 <= *pos_x <= 2_000_000_000,
            *dir == 1 || *dir == -1,
            wander_x_seq(
                rect.x as int,
                *pos_x as int,
                *dir as int,
                w as int,
                ry as int,
                h as int,
                vx as int,
                all.skip(i as int),
            ) == wander_x_seq(
                orig.0,
                orig.1,
                orig.2,
                w as int,
                ry as int,
                h as int,
                vx as int,
                all,
            ),
        decreases all.len() - i,
    {
        let t = tiles[i];
        proof {
            assert(all.skip(i as int)[0] == t);
            assert(all.skip(i as int).skip(1) =~= all.skip(i as int + 1));
        }
        if rect.has_intersection(&t) && vx != 0 {
            let nx: i64 = if vx > 0 {
                t.x - rect.w
            } else {
                t.x + t.w
            };
            rect.x = nx;
            *pos_x = nx * 1000;
            *dir = -*dir;
        }
        i = i + 1;
    }
    proof {
        assert(all.skip(all.len() as int) =~= Seq::<Rect>::empty());
    }
}

/// Resolve a wanderer vertically: snap against each tile in order.
pub fn resolve_wander_y(rect: &mut Rect, pos_y: &mut i64, vy: i64, tiles: &Vec<Rect>)
    requires
        rect_wf(*old(rect)),
        -2_000_000_000 <= *old(pos_y) <= 2_000_000_000,
        tiles_wf(tiles@),
    ensures
        (final(rect).y as int, *final(pos_y) as int) == wander_y_seq(
            old(rect).y as int,
            *old(pos_y) as int,
            old(rect).h as int,
            old(rect).x as int,
            old(rect).w as int,
            vy as int,
            tiles@,
        ),
        final(rect).x == old(rect).x,
        final(rect).w == old(rect).w,
        final(rect).h == old(rect).h,
        rect_wf(*final(rect)),
        -2_000_000_000 <= *final(pos_y) <= 2_000_000_000,
{
    let ghost orig = (old(rect).y as int, *old(pos_y) as int);
    let ghost all = tiles@;
    let h = rect.h;
    let rx = rect.x;
    let w = rect.w;
    let mut i: usize = 0;
    proof {
        assert(all.skip(0) =~= all);
    }
    while i < tiles.len()
        invariant
            0 <= i <= all.len(),
            tiles@ == all,
            tiles_wf(all),
            rect.h == h,
            rect.x == rx,
            rect.w == w,
            rect_wf(*rect),
            -2_000_000_000 <= *pos_y <= 2_000_000_000,
            wander_y_seq(
                rect.y as int,
                *pos_y as int,
                h as int,
                rx as int,
                w as int,
                vy as int,
                all.skip(i as int),
            ) == wander_y_seq(orig.0, orig.1, h as int, rx as int, w as int, vy as int, all),
        decreases all.len() - i,
    {
        let t = tiles[i];
        proof {
            assert(all.skip(i as int)[0] == t);
            assert(all.skip(i as int).skip(1) =~= all.skip(i as int + 1));
        }
        if rect.has_intersection(&t) {
            if vy > 0 {
                rect.y = t.y - rect.h;
                *pos_y = (t.y - rect.h) * 1000;
            } else if vy < 0 {
                rect.y = t.y + t.h;
                *pos_y = (t.y + t.h) * 1000;
            }
        }
        i = i + 1;
    }
    proof {
        assert(all.skip(all.len() as int) =~= Seq::<Rect>::empty());
    }
}

} // verus!
