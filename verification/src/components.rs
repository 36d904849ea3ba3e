//! Kinematic primitives: a current/max stat, position-velocity-acceleration
//! state, a transient fading particle, a frame-cycling sprite animator, and
//! static decor pieces.

use vstd::prelude::*;

use crate::fixed::{fx_mul_spec, in_fx_range};
use crate::geom::Rect;
use crate::math::{vec2_wf, Vec2};
use crate::rng::random_in;

verus! {

/// A two-value stat: a current level against a maximum (health).
/// `current` may go negative transiently; depletion is tested with `<= 0`.
#[derive(Clone, Copy, Debug, PartialEq, Eq, Structural)]
pub struct Stat {
    pub current: i64,
    pub max: i64,
}

/// Kinematic state of an entity.  `dir` is the facing/movement sign.
#[derive(Clone, Copy, Debug, PartialEq, Eq, Structural)]
pub struct Physics {
    pub pos: Vec2,
    pub vel: Vec2,
    pub dir: i64,
    pub acceleration: Vec2,
}

/// Kinematic state within the global fixed-point bounds, facing a definite
/// side.
pub open spec fn physics_wf(p: Physics) -> bool {
    &&& vec2_wf(p.pos)
    &&& vec2_wf(p.vel)
    &&& vec2_wf(p.acceleration)
    &&& (p.dir == 1 || p.dir == -1)
}

impl Physics {
    /// Fresh kinematic state: at rest at `pos`, facing right.
    pub fn new(pos: Vec2, acceleration: Vec2) -> (r: Physics)
        ensures
            r.pos == pos,
            r.vel == (Vec2 { x: 0, y: 0 }),
            r.dir == 1,
            r.acceleration == acceleration,
    {
        Physics { pos, vel: Vec2 { x: 0, y: 0 }, dir: 1, acceleration }
    }
}

/// A transient visual particle: a point with a fading alpha and a
/// per-particle drift rate (not gravity).
#[derive(Clone, Copy, Debug, PartialEq, Eq, Structural)]
pub struct Particle {
    pub alpha: i64,
    pub acceleration: Vec2,
    pub x: i64,
    pub y: i64,
}

/// Full opacity, in fixed-point alpha units.
pub const ALPHA_FULL: i64 = 255_000;

/// A valid particle: position near the world, bounded drift, alpha at most
/// full.
pub open spec fn particle_wf(p: Particle) -> bool {
    &&& -2_100_000_000 <= p.x <= 2_100_000_000
    &&& -2_100_000_000 <= p.y <= 2_100_000_000
    &&& -16_000 <= p.acceleration.x <= 16_000
    &&& 0 <= p.acceleration.y <= 16_000
    &&& 0 < p.alpha <= 255_000
}

impl Particle {
    /// A particle at `(x, y)` with the given drift rate and full alpha.
    pub fn with_drift(x: i64, y: i64, ax: i64, ay: i64) -> (r: Particle)
        ensures
            r == (Particle { alpha: 255_000, acceleration: Vec2 { x: ax, y: ay }, x, y }),
    {
        Particle { alpha: ALPHA_FULL, acceleration: Vec2 { x: ax, y: ay }, x, y }
    }

    /// A particle at `(x, y)` with a random drift rate of 8 to 16 units per
    /// second on each axis, and full alpha.
    pub fn new(x: i64, y: i64) -> (r: Particle)
        ensures
            r.x == x,
            r.y == y,
            r.alpha == 255_000,
            8_000 <= r.acceleration.x < 16_000,
            8_000 <= r.acceleration.y < 16_000,
    {
        let ax = random_in(8_000, 16_000);
        let ay = random_in(8_000, 16_000);
        Particle::with_drift(x, y, ax, ay)
    }
}

/// A frame-cycling sprite animator.  `frame` is the source sub-image within
/// the sprite sheet; advancing moves it one frame width to the right and
/// wraps back to the first frame past the last one.
#[derive(Clone, Copy, Debug, PartialEq, Eq, Structural)]
pub struct Animator {
    pub frame: Rect,
    pub count: i64,
    pub timer: i64,
    pub per_frame_time: i64,
}

/// A valid animator: at least one frame of positive size, the frame offset
/// within the sheet strip, the timer within the current frame's span.
pub open spec fn animator_wf(a: Animator) -> bool {
    &&& 0 < a.frame.w <= 1_000
    &&& 0 < a.frame.h <= 1_000
    &&& 1 <= a.count <= 1_000
    &&& 0 <= a.frame.x <= a.frame.w * (a.count - 1)
    &&& 0 <= a.frame.y <= 1_000_000
    &&& 0 <= a.per_frame_time <= 1_000_000
    &&& 0 <= a.timer <= a.per_frame_time
}

/// The index of the frame the animator currently shows.
pub open spec fn frame_index(a: Animator) -> int {
    a.frame.x as int / a.frame.w as int
}

/// Does a call of `animate` with this elapsed time cross a frame boundary?
pub open spec fn animate_crossed(a: Animator, dt: int) -> bool {
    a.timer + dt > a.per_frame_time
}

/// The frame offset after one boundary crossing: one frame width further,
/// wrapped to zero past the last frame.
pub open spec fn wrapped_frame_x(a: Animator) -> int {
    if a.frame.x + a.frame.w > a.frame.w * (a.count - 1) {
        0
    } else {
        a.frame.x + a.frame.w
    }
}

/// The animator state after `animate(dt)`.
pub open spec fn animate_spec(a: Animator, dt: int) -> Animator {
    if animate_crossed(a, dt) {
        Animator {
            frame: Rect { x: wrapped_frame_x(a) as i64, ..a.frame },
            timer: 0,
            ..a
        }
    } else {
        Animator { timer: (a.timer + dt) as i64, ..a }
    }
}

impl Animator {
    /// An animator showing the given source frame, cycling over `count`
    /// frames, one every `per_frame_time`.
    pub fn new(frame: Rect, count: i64, per_frame_time: i64) -> (r: Animator)
        ensures
            r == (Animator { frame, count, timer: 0, per_frame_time }),
    {
        Animator { frame, count, timer: 0, per_frame_time }
    }

    /// Accumulate `dt`; past the per-frame span, reset the timer and move to
    /// the next frame, wrapping to the first past the last.  Returns whether
    /// a frame boundary was crossed.
    pub fn animate(&mut self, dt: i64) -> (crossed: bool)
        requires
            animator_wf(*old(self)),
            0 < dt <= 10_000,
        ensures
            animator_wf(*final(self)),
            *final(self) == animate_spec(*old(self), dt as int),
            crossed == animate_crossed(*old(self), dt as int),
    {
        proof {
            assert(self.frame.w * (self.count - 1) <= 1_000_000) by (nonlinear_arith)
                requires
                    0 < self.frame.w <= 1_000,
                    1 <= self.count <= 1_000,
            ;
        }
        self.timer = self.timer + dt;
        if self.timer > self.per_frame_time {
            self.timer = 0;
            let last: i64 = self.frame.w * (self.count - 1);
            self.frame.x = self.frame.x + self.frame.w;
            if self.frame.x > last {
                self.frame.x = 0;
            }
            true
        } else {
            false
        }
    }
}

/// The current frame index is always one of the `count` frames.
pub proof fn lemma_frame_index_in_range(a: Animator)
    requires
        animator_wf(a),
    ensures
        0 <= frame_index(a) <= a.count - 1,
{
    assert(0 <= a.frame.x as int / a.frame.w as int <= a.count - 1) by (nonlinear_arith)
        requires
            0 < a.frame.w,
            0 <= a.frame.x <= a.frame.w * (a.count - 1),
            1 <= a.count,
    ;
}

/// The animator after `n` successive `animate(dt)` calls.
pub open spec fn animate_n_spec(a: Animator, dt: int, n: nat) -> Animator
    decreases n,
{
    if n == 0 {
        a
    } else {
        animate_spec(animate_n_spec(a, dt, (n - 1) as nat), dt)
    }
}

/// With `dt` beyond the per-frame span, every call crosses a boundary, and
/// a frame-aligned animator walks its frames cyclically: after `n` calls it
/// shows frame `(start + n) mod count`.
pub proof fn lemma_animator_walk(a: Animator, dt: int, n: nat)
    requires
        animator_wf(a),
        dt > a.per_frame_time,
        a.frame.x % a.frame.w == 0,
    ensures
        animator_wf(animate_n_spec(a, dt, n)),
        animate_n_spec(a, dt, n).frame.x == ((frame_index(a) + n) % (a.count as int))
            * a.frame.w,
        animate_n_spec(a, dt, n).frame.w == a.frame.w,
        animate_n_spec(a, dt, n).count == a.count,
        animate_n_spec(a, dt, n).per_frame_time == a.per_frame_time,
        n > 0 ==> animate_n_spec(a, dt, n).timer == 0,
    decreases n,
{
    let w = a.frame.w as int;
    let c = a.count as int;
    let k = frame_index(a);
    assert(0 <= k < c && k * w == a.frame.x && w * (c - 1) == (c - 1) * w) by (nonlinear_arith)
        requires
            0 < w,
            0 <= a.frame.x <= w * (c - 1),
            a.frame.x as int % w == 0,
            k == a.frame.x as int / w,
            1 <= c,
    ;
    if n == 0 {
        assert(k % c == k) by (nonlinear_arith)
            requires
                0 <= k < c,
        ;
        assert(animate_n_spec(a, dt, 0) == a);
        assert(a.frame.x == (k % c) * w) by (nonlinear_arith)
            requires
                k % c == k,
                k * w == a.frame.x,
        ;
    } else {
        let prev = animate_n_spec(a, dt, (n - 1) as nat);
        lemma_animator_walk(a, dt, (n - 1) as nat);
        let m = (k + n - 1) % c;
        assert(0 <= m < c) by (nonlinear_arith)
            requires
                c >= 1,
                m == (k + n - 1) % c,
        ;
        assert(prev.frame.x == m * w);
        assert(animate_crossed(prev, dt));
        let nx = prev.frame.x + w;
        assert(nx == (m + 1) * w) by (nonlinear_arith)
            requires
                prev.frame.x == m * w,
                nx == prev.frame.x + w,
        ;
        if m + 1 > c - 1 {
            assert(m + 1 == c);
            assert(nx > w * (c - 1)) by (nonlinear_arith)
                requires
                    nx == (m + 1) * w,
                    m + 1 == c,
                    w > 0,
            ;
            assert(animate_n_spec(a, dt, n).frame.x == 0);
            assert((k + n) % c == 0) by (nonlinear_arith)
                requires
                    c >= 1,
                    (k + n - 1) % c == c - 1,
            ;
        } else {
            assert(nx <= w * (c - 1)) by (nonlinear_arith)
                requires
                    nx == (m + 1) * w,
                    m + 1 <= c - 1,
                    w > 0,
            ;
            assert(w * (c - 1) <= 1_000_000) by (nonlinear_arith)
                requires
                    0 < w <= 1_000,
                    1 <= c <= 1_000,
            ;
            assert(animate_n_spec(a, dt, n).frame.x == nx);
            assert((k + n) % c == m + 1) by (nonlinear_arith)
                requires
                    c >= 1,
                    0 <= m + 1 <= c - 1,
                    (k + n - 1) % c == m,
            ;
            assert(((k + n) % c) * w == nx) by (nonlinear_arith)
                requires
                    (k + n) % c == m + 1,
                    nx == (m + 1) * w,
            ;
        }
    }
}

/// A full cycle returns to the starting frame: with `dt` beyond the
/// per-frame span and a frame-aligned start, `count` calls of `animate`
/// bring the frame offset back to where it began.
pub proof fn lemma_animator_full_cycle(a: Animator, dt: int)
    requires
        animator_wf(a),
        dt > a.per_frame_time,
        a.frame.x % a.frame.w == 0,
    ensures
        animate_n_spec(a, dt, a.count as nat).frame.x == a.frame.x,
{
    let w = a.frame.w as int;
    let c = a.count as int;
    let k = frame_index(a);
    lemma_animator_walk(a, dt, a.count as nat);
    assert(0 <= k < c && k * w == a.frame.x) by (nonlinear_arith)
        requires
            0 < w,
            0 <= a.frame.x <= w * (c - 1),
            a.frame.x as int % w == 0,
            k == a.frame.x as int / w,
            1 <= c,
    ;
    assert((k + c) % c == k) by (nonlinear_arith)
        requires
            0 <= k < c,
    ;
}

/// The kinds of static decor, each with its fixed sprite size.
#[derive(Clone, Copy, Debug, PartialEq, Eq, Structural)]
pub enum DecorKind {
    Sewage,
    Fountain,
    Vine,
}

/// The sprite frame width of a decor kind.
pub open spec fn decor_frame_w(kind: DecorKind) -> int {
    match kind {
        DecorKind::Sewage => 8,
        DecorKind::Fountain => 16,
        DecorKind::Vine => 10,
    }
}

/// The sprite frame height of a decor kind.
pub open spec fn decor_frame_h(kind: DecorKind) -> int {
    match kind {
        DecorKind::Sewage => 12,
        DecorKind::Fountain => 20,
        DecorKind::Vine => 6,
    }
}

/// An animated background piece at a fixed position.
#[derive(Clone, Copy, Debug)]
pub struct Decor {
    pub pos: (i64, i64),
    pub kind: DecorKind,
    pub animator: Animator,
}

impl Decor {
    /// A decor piece of the given kind: four frames of its kind's sprite
    /// size, one every tenth of a second.
    pub fn new(pos: (i64, i64), kind: DecorKind) -> (r: Decor)
        ensures
            r.pos == pos,
            r.kind == kind,
            r.animator == (Animator {
                frame: Rect {
                    x: 0,
                    y: 0,
                    w: decor_frame_w(kind) as i64,
                    h: decor_frame_h(kind) as i64,
                },
                count: 4,
                timer: 0,
                per_frame_time: 100,
            }),
            animator_wf(r.animator),
    {
        let (w, h): (i64, i64) = match kind {
            DecorKind::Sewage => (8, 12),
            DecorKind::Fountain => (16, 20),
            DecorKind::Vine => (10, 6),
        };
        Decor { pos, kind, animator: Animator::new(Rect { x: 0, y: 0, w, h }, 4, 100) }
    }
}

} // verus!
