//! The entity substrate and the wandering creature: an entity composes a
//! bounding box, kinematic state, a stat and an animator; a wanderer walks
//! until it hits tile geometry, then reverses, while falling at a constant
//! vertical rate.

use vstd::prelude::*;

use crate::collision::{
    resolve_wander_x, resolve_wander_y, tiles_wf, wander_x_seq, wander_y_seq,
};
use crate::components::{
    animator_wf, physics_wf, Animator, Particle, Physics, Stat,
};
use crate::components::{animate_spec, particle_wf};
use crate::fixed::{fx_mul, fx_mul_spec, fx_to_units, sat_add, sat_add_spec, to_units_spec};
use crate::geom::{rect_wf, Rect};
use crate::math::{vec2_wf, Vec2};
use crate::rng::random_in;

verus! {

/// A cooldown-gated projectile weapon; bullets reuse the particle shape,
/// with `acceleration.x` holding the signed horizontal speed multiplier.
pub struct Gun {
    pub damage: i64,
    pub bullets: Vec<Particle>,
    pub per_bullet_time: i64,
    pub cool_down_timer: i64,
}

/// A valid gun: positive cooldown span, the timer within it, bullets valid.
pub open spec fn gun_wf(g: Gun) -> bool {
    &&& 0 <= g.damage <= 1_000_000
    &&& 0 < g.per_bullet_time <= 1_000_000
    &&& 0 <= g.cool_down_timer <= g.per_bullet_time
    &&& forall|i: int| 0 <= i < g.bullets@.len() ==> particle_wf(#[trigger] g.bullets@[i])
}

impl Gun {
    /// An empty gun dealing `damage` per hit, one bullet per
    /// `per_bullet_time`.
    pub fn new(damage: i64, per_bullet_time: i64) -> (r: Gun)
        ensures
            r.damage == damage,
            r.per_bullet_time == per_bullet_time,
            r.cool_down_timer == 0,
            r.bullets@ =~= Seq::<Particle>::empty(),
    {
        Gun { damage, bullets: Vec::new(), per_bullet_time, cool_down_timer: 0 }
    }
}

/// The common substrate of every simulated actor.  The fixed-point position
/// is the authoritative state; the integer box is re-derived each tick and
/// used for collision.
pub struct Entity {
    pub physics: Physics,
    pub rect: Rect,
    pub hp: Stat,
    pub animator: Animator,
}

/// A valid entity: valid parts, the stat within the global bound.
pub open spec fn entity_wf(e: Entity) -> bool {
    &&& physics_wf(e.physics)
    &&& rect_wf(e.rect)
    &&& animator_wf(e.animator)
    &&& -2_000_000_000 <= e.hp.current <= 2_000_000_000
    &&& 0 <= e.hp.max <= 2_000_000_000
}

impl Entity {
    /// An entity filling `rect`, at rest there, with full health `hp`.
    pub fn new(rect: Rect, acceleration: Vec2, hp: i64, animator: Animator) -> (r: Entity)
        requires
            rect_wf(rect),
            vec2_wf(acceleration),
            0 <= hp <= 1_000_000,
            animator_wf(animator),
        ensures
            r.rect == rect,
            r.physics.pos == (Vec2 { x: (rect.x * 1000) as i64, y: (rect.y * 1000) as i64 }),
            r.physics.vel == (Vec2 { x: 0, y: 0 }),
            r.physics.dir == 1,
            r.physics.acceleration == acceleration,
            r.hp == (Stat { current: hp, max: hp }),
            r.animator == animator,
            entity_wf(r),
    {
        Entity {
            physics: Physics::new(Vec2 { x: rect.x * 1000, y: rect.y * 1000 }, acceleration),
            rect,
            hp: Stat { current: hp, max: hp },
            animator,
        }
    }
}

/// The kinds of wandering creature, each with its fixed size, walk rate
/// range and animation cadence.
#[derive(Clone, Copy, Debug, PartialEq, Eq, Structural)]
pub enum WandererKind {
    Caterpillar,
}

/// A decorative autonomous entity that patrols between walls.
pub struct Wanderer {
    pub entity: Entity,
    pub kind: WandererKind,
}

/// A valid wanderer: a valid entity whose walk and fall rates stay within
/// the level scale.
pub open spec fn wanderer_wf(w: Wanderer) -> bool {
    &&& entity_wf(w.entity)
    &&& 0 <= w.entity.physics.acceleration.x <= 1_000_000
    &&& 0 <= w.entity.physics.acceleration.y <= 1_000_000
    &&& -1_000_000 <= w.entity.physics.vel.x <= 1_000_000
    &&& -1_000_000 <= w.entity.physics.vel.y <= 1_000_000
}

/// The wanderer state after one tick: walk in the facing direction,
/// reverse on any wall hit, fall at the constant vertical rate, land on
/// tile tops, and advance the animation.
pub open spec fn wanderer_step_spec(w: Wanderer, dt: int, tiles: Seq<Rect>) -> Wanderer {
    let vx = w.entity.physics.dir as int * w.entity.physics.acceleration.x as int;
    let px1 = sat_add_spec(w.entity.physics.pos.x as int, fx_mul_spec(vx, dt));
    let rx1 = to_units_spec(px1);
    let sx = wander_x_seq(
        rx1,
        px1,
        w.entity.physics.dir as int,
        w.entity.rect.w as int,
        w.entity.rect.y as int,
        w.entity.rect.h as int,
        vx,
        tiles,
    );
    let vy = w.entity.physics.acceleration.y as int;
    let py1 = sat_add_spec(w.entity.physics.pos.y as int, fx_mul_spec(vy, dt));
    let ry1 = to_units_spec(py1);
    let sy = wander_y_seq(
        ry1,
        py1,
        w.entity.rect.h as int,
        sx.0,
        w.entity.rect.w as int,
        vy,
        tiles,
    );
    Wanderer {
        entity: Entity {
            physics: Physics {
                pos: Vec2 { x: sx.1 as i64, y: sy.1 as i64 },
                vel: Vec2 { x: vx as i64, y: vy as i64 },
                dir: sx.2 as i64,
                acceleration: w.entity.physics.acceleration,
            },
            rect: Rect { x: sx.0 as i64, y: sy.0 as i64, ..w.entity.rect },
            hp: w.entity.hp,
            animator: animate_spec(w.entity.animator, dt),
        },
        kind: w.kind,
    }
}

impl Wanderer {
    /// A wanderer of the given kind with an explicit walk rate and starting
    /// animation frame.
    pub fn from_parts(x: i64, y: i64, kind: WandererKind, accel_x: i64, start_frame: i64) -> (r:
        Wanderer)
        requires
            -1_000_000 <= x <= 1_000_000,
            -1_000_000 <= y <= 1_000_000,
            2_000 <= accel_x < 4_000,
            0 <= start_frame <= 2,
        ensures
            r.kind == kind,
            r.entity.rect == (Rect { x, y, w: 3, h: 2 }),
            r.entity.physics.pos == (Vec2 { x: (x * 1000) as i64, y: (y * 1000) as i64 }),
            r.entity.physics.vel == (Vec2 { x: 0, y: 0 }),
            r.entity.physics.dir == 1,
            r.entity.physics.acceleration == (Vec2 { x: accel_x, y: 49_000 }),
            r.entity.hp == (Stat { current: 2_000, max: 2_000 }),
            r.entity.animator == (Animator {
                frame: Rect { x: (start_frame * 3) as i64, y: 0, w: 3, h: 2 },
                count: 3,
                timer: 0,
                per_frame_time: 200,
            }),
            wanderer_wf(r),
    {
        let rect = Rect { x, y, w: 3, h: 2 };
        let animator = Animator::new(
            Rect { x: start_frame * 3, y: 0, w: 3, h: 2 },
            3,
            200,
        );
        Wanderer {
            entity: Entity::new(rect, Vec2 { x: accel_x, y: 49_000 }, 2_000, animator),
            kind,
        }
    }

    /// A wanderer of the given kind at `(x, y)`: a random walk rate of 2 to
    /// 4 units per second and a random starting frame of its three-frame,
    /// 3-by-2 sprite strip.
    pub fn new(x: i64, y: i64, kind: WandererKind) -> (r: Wanderer)
        requires
            -1_000_000 <= x <= 1_000_000,
            -1_000_000 <= y <= 1_000_000,
        ensures
            r.kind == kind,
            r.entity.rect == (Rect { x, y, w: 3, h: 2 }),
            r.entity.physics.pos == (Vec2 { x: (x * 1000) as i64, y: (y * 1000) as i64 }),
            r.entity.physics.vel == (Vec2 { x: 0, y: 0 }),
            r.entity.physics.dir == 1,
            2_000 <= r.entity.physics.acceleration.x < 4_000,
            r.entity.physics.acceleration.y == 49_000,
            r.entity.hp == (Stat { current: 2_000, max: 2_000 }),
            r.entity.animator.frame.y == 0,
            r.entity.animator.frame.w == 3,
            r.entity.animator.frame.h == 2,
            0 <= r.entity.animator.frame.x <= 6,
            r.entity.animator.frame.x % 3 == 0,
            r.entity.animator.count == 3,
            r.entity.animator.timer == 0,
            r.entity.animator.per_frame_time == 200,
            wanderer_wf(r),
    {
        let accel_x = random_in(2_000, 4_000);
        let start_frame = random_in(0, 3);
        let r = Wanderer::from_parts(x, y, kind, accel_x, start_frame);
        proof {
            vstd::arithmetic::div_mod::lemma_mod_multiples_basic(start_frame as int, 3);
            assert(r.entity.animator.frame.x as int == start_frame as int * 3);
            assert(0 <= start_frame as int * 3 <= 6) by (nonlinear_arith)
                requires
                    0 <= start_frame as int <= 2,
            ;
        }
        r
    }

    /// One tick: integrate the walk, reverse on wall contact, fall at the
    /// constant vertical rate, land on tile tops, advance the animation.
    pub fn update(&mut self, dt: i64, tiles: &Vec<Rect>)
        requires
            wanderer_wf(*old(self)),
            0 < dt <= 10_000,
            tiles_wf(tiles@),
        ensures
            *final(self) == wanderer_step_spec(*old(self), dt as int, tiles@),
            wanderer_wf(*final(self)),
    {
        let dir0 = self.entity.physics.dir;
        let ax = self.entity.physics.acceleration.x;
        let vx: i64 = if dir0 == 1 {
            ax
        } else {
            -ax
        };
        proof {
            assert(vx as int == dir0 as int * ax as int) by (nonlinear_arith)
                requires
                    dir0 == 1 || dir0 == -1,
                    vx == (if dir0 == 1 {
                        ax as int
                    } else {
                        -(ax as int)
                    }),
            ;
        }
        self.entity.physics.vel.x = vx;
        let mut px = sat_add(self.entity.physics.pos.x, fx_mul(vx, dt));
        let mut rect = self.entity.rect;
        rect.x = fx_to_units(px);
        let mut dir = dir0;
        resolve_wander_x(&mut rect, &mut px, &mut dir, vx, tiles);
        self.entity.physics.pos.x = px;
        self.entity.physics.dir = dir;

        let vy = self.entity.physics.acceleration.y;
        self.entity.physics.vel.y = vy;
        let mut py = sat_add(self.entity.physics.pos.y, fx_mul(vy, dt));
        rect.y = fx_to_units(py);
        resolve_wander_y(&mut rect, &mut py, vy, tiles);
        self.entity.physics.pos.y = py;
        self.entity.rect = rect;

        self.entity.animator.animate(dt);
    }
}

} // verus!
