//! The player: horizontal movement with friction and a clamped, quantized
//! velocity, jump from ground or water, a cooldown-gated latch-fired gun, a
//! fading footstep trail, and axis-separated tile collision.

use vstd::prelude::*;

use crate::collision::{resolve_axis_x, resolve_axis_y, resolve_x_seq, resolve_y_seq, tiles_wf};
use crate::components::{animate_spec, Animator, Particle, Physics, Stat};
use crate::components::particle_wf;
use crate::entities::{gun_wf, Entity, Gun};
use crate::entities::entity_wf;
use crate::fixed::{
    clamp, clamp_spec, fx_mul, fx_mul_spec, fx_to_units, lemma_fx_mul_bound, sat_add,
    sat_add_spec, to_units_spec,
};
use crate::geom::{intersects_spec, tile_wf, Rect};
use crate::math::Vec2;
use crate::particles::{bullets_step_spec, step_bullets, step_trail, trail_rel};

verus! {

/// One player's input intents for a tick: two held movement keys, an
/// edge-triggered jump, and a held fire key.
#[derive(Clone, Copy, Debug, PartialEq, Eq, Structural)]
pub struct Intents {
    pub right: bool,
    pub left: bool,
    pub jump: bool,
    pub shoot: bool,
}

/// The designated water rectangle: drag is stronger inside it, and a jump
/// may start from it.
pub open spec fn water_zone() -> Rect {
    Rect { x: 24, y: 42, w: 36, h: 16 }
}

/// The water rectangle as a runtime value.
pub fn water_rect() -> (r: Rect)
    ensures
        r == water_zone(),
        tile_wf(r),
{
    Rect { x: 24, y: 42, w: 36, h: 16 }
}

/// Horizontal velocity cap outside a dash, in fixed-point units.
pub const MAX_VEL_X: i64 = 24_000;

/// Vertical velocity cap; its negation is the jump impulse.
pub const MAX_VEL_Y: i64 = 120_000;

/// A player-controlled fighter.
pub struct Player {
    pub entity: Entity,
    pub gun: Gun,
    pub dash_timer: i64,
    pub trail_timer: i64,
    pub dashing: bool,
    pub grounded: bool,
    pub shooting: bool,
    pub trail: Vec<Particle>,
    pub title: String,
}

/// A valid player: valid parts, velocities and drives within the caps the
/// tick re-establishes, timers within their spans, the 3-by-4 box and
/// three-frame sprite of the player sheet.
pub open spec fn player_wf(p: Player) -> bool {
    &&& entity_wf(p.entity)
    &&& gun_wf(p.gun)
    &&& -160_000 <= p.entity.physics.vel.x <= 160_000
    &&& -12_400_000 <= p.entity.physics.vel.y <= 12_400_000
    &&& 0 <= p.entity.physics.acceleration.x <= 48_000
    &&& -120_000 <= p.entity.physics.acceleration.y <= 10_000
    &&& 0 <= p.dash_timer <= 80
    &&& 0 <= p.trail_timer <= 25
    &&& p.entity.rect.w == 3
    &&& p.entity.rect.h == 4
    &&& p.entity.animator.frame.w == 3
    &&& p.entity.animator.frame.h == 4
    &&& p.entity.animator.count == 3
    &&& forall|i: int| 0 <= i < p.trail@.len() ==> particle_wf(#[trigger] p.trail@[i])
}

/// Is the player's box in the water rectangle this tick?
pub open spec fn in_water_of(p: Player) -> bool {
    intersects_spec(p.entity.rect, water_zone())
}

/// The facing side after a tick driven by `ctrl`: set by an uncancelled
/// movement key, otherwise kept.
pub open spec fn dir_after(p: Player, ctrl: Intents) -> int {
    if ctrl.right && !ctrl.left {
        1
    } else if ctrl.left && !ctrl.right {
        -1
    } else {
        p.entity.physics.dir as int
    }
}

/// The horizontal drive from input: a fixed rate under exactly one held
/// movement key, none when both or neither are held.
pub open spec fn input_ax(ctrl: Intents) -> int {
    if (ctrl.right && !ctrl.left) || (ctrl.left && !ctrl.right) {
        4_000
    } else {
        0
    }
}

/// The horizontal drive for the tick: the dash rate while dashing,
/// otherwise the input drive.
pub open spec fn accel_x_after(p: Player, ctrl: Intents) -> int {
    if p.dashing {
        48_000
    } else {
        input_ax(ctrl)
    }
}

/// The vertical impulse for the tick: the jump impulse when jump is
/// pressed while grounded or in water, otherwise none.
pub open spec fn accel_y_after(p: Player, ctrl: Intents) -> int {
    if ctrl.jump && (p.grounded || in_water_of(p)) {
        -120_000
    } else {
        0
    }
}

/// The vertical velocity after this tick's drag: damped harder in water.
pub open spec fn vy_damped(p: Player) -> int {
    fx_mul_spec(p.entity.physics.vel.y as int, if in_water_of(p) {
        800
    } else {
        990
    })
}

/// The horizontal velocity cap in force: raised while dashing.
pub open spec fn max_x_of(p: Player) -> int {
    if p.dashing {
        160_000
    } else {
        24_000
    }
}

/// The horizontal velocity after drive, friction, whole-unit quantization
/// and the cap.
pub open spec fn vel_x_stepped(vx: int, dir: int, ax: int, max_x: int) -> int {
    clamp_spec(to_units_spec(fx_mul_spec(vx + dir * ax, 900)) * 1000, -max_x, max_x)
}

/// The player's horizontal velocity after the tick.
pub open spec fn vel_x_after(p: Player, ctrl: Intents) -> int {
    vel_x_stepped(
        p.entity.physics.vel.x as int,
        dir_after(p, ctrl),
        accel_x_after(p, ctrl),
        max_x_of(p),
    )
}

/// Does the tick fire a bullet: the latch is armed (held over or newly
/// pressed) and the accumulated cooldown passes the per-bullet span.
pub open spec fn fires(p: Player, ctrl: Intents, dt: int) -> bool {
    (p.shooting || ctrl.shoot) && p.gun.cool_down_timer + dt > p.gun.per_bullet_time
}

/// The shooting latch after the tick: armed and not yet discharged.
pub open spec fn shooting_after(p: Player, ctrl: Intents, dt: int) -> bool {
    (p.shooting || ctrl.shoot) && !fires(p, ctrl, dt)
}

/// The gun cooldown after the tick: it accumulates only while the latch is
/// armed and resets on a shot.
pub open spec fn cd_after(p: Player, ctrl: Intents, dt: int) -> int {
    if !(p.shooting || ctrl.shoot) {
        p.gun.cool_down_timer as int
    } else if fires(p, ctrl, dt) {
        0
    } else {
        p.gun.cool_down_timer + dt
    }
}

/// The dash window timer after the tick.
pub open spec fn dash_timer_after(p: Player, dt: int) -> int {
    if p.dashing {
        if p.dash_timer + dt > 80 {
            0
        } else {
            p.dash_timer + dt
        }
    } else {
        p.dash_timer as int
    }
}

/// Is the player still dashing after the tick?
pub open spec fn dashing_after(p: Player, dt: int) -> bool {
    p.dashing && !(p.dash_timer + dt > 80)
}

/// The bullet spawned at the gun muzzle: at the entity's side in the
/// facing direction, level with its center, drifting at `sx`/`sy` with the
/// horizontal rate signed by the facing.
pub open spec fn spawned_bullet(p: Player, dir: int, sx: int, sy: int) -> Particle {
    Particle {
        alpha: 255_000,
        acceleration: Vec2 { x: (dir * sx) as i64, y: sy as i64 },
        x: ((p.entity.rect.x + 4 * dir) * 1000) as i64,
        y: ((p.entity.rect.y + p.entity.rect.h / 2 - 1) * 1000) as i64,
    }
}

/// The horizontal state `(rect x, fixed-point x)` reached by integrating
/// `vx` from `pos_x` over `dt` in the box `rect`, then resolving against
/// the tiles.
pub open spec fn x_resolved_raw(pos_x: int, rect: Rect, vx: int, dt: int, tiles: Seq<Rect>) -> (
    int,
    int,
) {
    let px1 = sat_add_spec(pos_x, fx_mul_spec(vx, dt));
    resolve_x_seq(
        to_units_spec(px1),
        px1,
        rect.w as int,
        rect.y as int,
        rect.h as int,
        vx,
        tiles,
    )
}

/// The horizontal state `(rect x, fixed-point x)` after integration and
/// tile resolution.
pub open spec fn x_resolved(p: Player, ctrl: Intents, dt: int, tiles: Seq<Rect>) -> (int, int) {
    x_resolved_raw(
        p.entity.physics.pos.x as int,
        p.entity.rect,
        vel_x_after(p, ctrl),
        dt,
        tiles,
    )
}

/// A damped vertical velocity `vy` after impulse `ay` and gravity, capped
/// at the fall limit.
pub open spec fn vel_y_capped_raw(vy: int, ay: int) -> int {
    let vyr = vy + ay + 4_000;
    if vyr > 64_000 {
        64_000
    } else {
        vyr
    }
}

/// The vertical velocity entering integration: damped, plus impulse and
/// gravity, capped at the fall limit.
pub open spec fn vel_y_capped(p: Player, ctrl: Intents) -> int {
    vel_y_capped_raw(vy_damped(p), accel_y_after(p, ctrl))
}

/// The vertical state `(rect y, fixed-point y, vertical velocity,
/// grounded)` reached by integrating `vy` from `pos_y` over `dt` in the
/// box `rect` already placed at `rx_new`, then resolving against the
/// tiles.
pub open spec fn y_resolved_raw(
    pos_y: int,
    rect: Rect,
    rx_new: int,
    vy: int,
    dt: int,
    tiles: Seq<Rect>,
) -> (int, int, int, bool) {
    let py1 = sat_add_spec(pos_y, fx_mul_spec(vy, dt));
    resolve_y_seq(
        to_units_spec(py1),
        py1,
        rect.h as int,
        rx_new,
        rect.w as int,
        vy,
        false,
        tiles,
    )
}

/// The vertical state `(rect y, fixed-point y, vertical velocity,
/// grounded)` after integration and tile resolution.
pub open spec fn y_resolved(p: Player, ctrl: Intents, dt: int, tiles: Seq<Rect>) -> (
    int,
    int,
    int,
    bool,
) {
    y_resolved_raw(
        p.entity.physics.pos.y as int,
        p.entity.rect,
        x_resolved(p, ctrl, dt, tiles).0,
        vel_y_capped(p, ctrl),
        dt,
        tiles,
    )
}

/// Where a trail particle is emitted: the entity's trailing edge at its
/// feet.
pub open spec fn trail_spawn_x(rect: Rect, dir: int) -> int {
    (rect.x + rect.w / 2 - (rect.w / 2) * dir) * 1000
}

/// The animator after the tick: advanced, then forced to the fixed idle
/// frame offset when the player ended the tick at rest.
pub open spec fn animator_after(p: Player, ctrl: Intents, dt: int) -> Animator {
    let a = animate_spec(p.entity.animator, dt);
    if vel_x_after(p, ctrl) == 0 {
        Animator { frame: Rect { x: 4, ..a.frame }, ..a }
    } else {
        a
    }
}

/// The trail emission timer after the tick: it accumulates only while
/// moving and resets on an emission.
pub open spec fn trail_timer_after(p: Player, ctrl: Intents, dt: int) -> int {
    if vel_x_after(p, ctrl) == 0 {
        p.trail_timer as int
    } else if p.trail_timer + dt > 25 {
        0
    } else {
        p.trail_timer + dt
    }
}

/// Does the tick emit a trail particle: the player moved and the emission
/// cadence elapsed.
pub open spec fn emits_trail(p: Player, ctrl: Intents, dt: int) -> bool {
    vel_x_after(p, ctrl) != 0 && p.trail_timer + dt > 25
}

/// The deterministic part of a player tick: everything but the contents
/// of the trail and bullet collections (carried over unchanged here and
/// related separately, since their drift draws jitter).
pub open spec fn player_motion_spec(p: Player, dt: int, ctrl: Intents, tiles: Seq<Rect>) -> Player {
    let sx = x_resolved(p, ctrl, dt, tiles);
    let sy = y_resolved(p, ctrl, dt, tiles);
    Player {
        entity: Entity {
            physics: Physics {
                pos: Vec2 { x: sx.1 as i64, y: sy.1 as i64 },
                vel: Vec2 { x: vel_x_after(p, ctrl) as i64, y: sy.2 as i64 },
                dir: dir_after(p, ctrl) as i64,
                acceleration: Vec2 {
                    x: accel_x_after(p, ctrl) as i64,
                    y: accel_y_after(p, ctrl) as i64,
                },
            },
            rect: Rect { x: sx.0 as i64, y: sy.0 as i64, ..p.entity.rect },
            hp: p.entity.hp,
            animator: animator_after(p, ctrl, dt),
        },
        gun: Gun {
            damage: p.gun.damage,
            bullets: p.gun.bullets,
            per_bullet_time: p.gun.per_bullet_time,
            cool_down_timer: cd_after(p, ctrl, dt) as i64,
        },
        dash_timer: dash_timer_after(p, dt) as i64,
        trail_timer: trail_timer_after(p, ctrl, dt) as i64,
        dashing: dashing_after(p, dt),
        grounded: sy.3,
        shooting: shooting_after(p, ctrl, dt),
        trail: p.trail,
        title: p.title,
    }
}

/// How the bullet collection steps in a tick: the pre-tick bullets, plus
/// the muzzle bullet when the tick fires, all advanced and culled to the
/// level bounds.
pub open spec fn bullets_clause(pre: Player, post: Player, dt: int, ctrl: Intents) -> bool {
    if fires(pre, ctrl, dt) {
        exists|sx: int, sy: int|
            8_000 <= sx < 16_000 && 8_000 <= sy < 16_000 && post.gun.bullets@
                == bullets_step_spec(
                pre.gun.bullets@.push(spawned_bullet(pre, dir_after(pre, ctrl), sx, sy)),
                dt,
            )
    } else {
        post.gun.bullets@ == bullets_step_spec(pre.gun.bullets@, dt)
    }
}

/// How the trail steps in a tick: the pre-tick particles drift and fade,
/// and, when the player moved and the emission cadence elapsed, one fresh
/// particle appears at the trailing edge with alpha 160.
pub open spec fn trail_clause(pre: Player, post: Player, dt: int, ctrl: Intents, tiles: Seq<
    Rect,
>) -> bool {
    let m = player_motion_spec(pre, dt, ctrl, tiles);
    if emits_trail(pre, ctrl, dt) {
        &&& post.trail@.len() >= 1
        &&& trail_rel(pre.trail@, post.trail@.drop_last(), dt)
        &&& post.trail@.last().alpha == 160_000
        &&& post.trail@.last().x == trail_spawn_x(m.entity.rect, dir_after(pre, ctrl))
        &&& post.trail@.last().y == (m.entity.rect.y + m.entity.rect.h) * 1000
        &&& 8_000 <= post.trail@.last().acceleration.x < 16_000
        &&& 8_000 <= post.trail@.last().acceleration.y < 16_000
    } else {
        trail_rel(pre.trail@, post.trail@, dt)
    }
}

/// The player tick in full: the deterministic motion, latch, cooldown and
/// animation state, with the trail and bullet collections related up to
/// their random drift draws.
pub open spec fn player_step_rel(
    pre: Player,
    post: Player,
    dt: int,
    ctrl: Intents,
    tiles: Seq<Rect>,
) -> bool {
    let m = player_motion_spec(pre, dt, ctrl, tiles);
    &&& post.entity == m.entity
    &&& post.dash_timer == m.dash_timer
    &&& post.trail_timer == m.trail_timer
    &&& post.dashing == m.dashing
    &&& post.grounded == m.grounded
    &&& post.shooting == m.shooting
    &&& post.title == pre.title
    &&& post.gun.damage == pre.gun.damage
    &&& post.gun.per_bullet_time == pre.gun.per_bullet_time
    &&& post.gun.cool_down_timer == m.gun.cool_down_timer
    &&& bullets_clause(pre, post, dt, ctrl)
    &&& trail_clause(pre, post, dt, ctrl, tiles)
}

impl Player {
    /// A fresh player at `(x, y)`: a 3 by 4 box, 8 health, a gun dealing 1
    /// damage every 0.3 seconds, no motion, facing right.
    pub fn new(x: i64, y: i64, title: &str) -> (r: Player)
        requires
            -1_000_000 <= x <= 1_000_000,
            -1_000_000 <= y <= 1_000_000,
        ensures
            r.entity.rect == (Rect { x, y, w: 3, h: 4 }),
            r.entity.physics.pos == (Vec2 { x: (x * 1000) as i64, y: (y * 1000) as i64 }),
            r.entity.physics.vel == (Vec2 { x: 0, y: 0 }),
            r.entity.physics.dir == 1,
            r.entity.physics.acceleration == (Vec2 { x: 8_000, y: 9_800 }),
            r.entity.hp == (Stat { current: 8_000, max: 8_000 }),
            r.gun.damage == 1_000,
            r.gun.per_bullet_time == 300,
            r.gun.cool_down_timer == 0,
            r.gun.bullets@ =~= Seq::<Particle>::empty(),
            r.dash_timer == 0,
            r.trail_timer == 0,
            !r.dashing,
            !r.grounded,
            !r.shooting,
            r.trail@ =~= Seq::<Particle>::empty(),
            r.title@ == title@,
            r.entity.animator == (Animator {
                frame: Rect { x: 0, y: 0, w: 3, h: 4 },
                count: 3,
                timer: 0,
                per_frame_time: 100,
            }),
            player_wf(r),
    {
        let rect = Rect { x, y, w: 3, h: 4 };
        Player {
            entity: Entity::new(
                rect,
                Vec2 { x: 8_000, y: 9_800 },
                8_000,
                Animator::new(Rect { x: 0, y: 0, w: 3, h: 4 }, 3, 100),
            ),
            gun: Gun::new(1_000, 300),
            dash_timer: 0,
            trail_timer: 0,
            dashing: false,
            grounded: false,
            shooting: false,
            trail: Vec::new(),
            title: title.to_string(),
        }
    }

    /// The authoritative fixed-point position.
    pub fn pos(&self) -> (r: Vec2)
        ensures
            r == self.entity.physics.pos,
    {
        self.entity.physics.pos
    }

    /// Is the player dead?  Exactly when health has reached zero or fallen
    /// below it.
    pub fn is_dead(&self) -> (r: bool)
        ensures
            r == (self.entity.hp.current <= 0),
    {
        self.entity.hp.current <= 0
    }

    /// The player's display name.
    pub fn title(&self) -> (r: &str)
        ensures
            r@ == self.title@,
    {
        self.title.as_str()
    }

    /// The input, drag, combat-latch and dash phases of a tick: facing,
    /// drive, impulse, damped vertical velocity, the latch and cooldown
    /// with a possible muzzle spawn, and the dash window.
    #[verifier::rlimit(100)]
    fn tick_intent(&mut self, dt: i64, ctrl: Intents)
        requires
            player_wf(*old(self)),
            0 < dt <= 10_000,
        ensures
            final(self).entity.physics.dir as int == dir_after(*old(self), ctrl),
            final(self).entity.physics.acceleration.x as int == accel_x_after(*old(self), ctrl),
            final(self).entity.physics.acceleration.y as int == accel_y_after(*old(self), ctrl),
            final(self).entity.physics.vel.x == old(self).entity.physics.vel.x,
            final(self).entity.physics.vel.y as int == vy_damped(*old(self)),
            -12_276_000 <= final(self).entity.physics.vel.y <= 12_276_000,
            final(self).entity.physics.pos == old(self).entity.physics.pos,
            final(self).entity.rect == old(self).entity.rect,
            final(self).entity.hp == old(self).entity.hp,
            final(self).entity.animator == old(self).entity.animator,
            final(self).gun.damage == old(self).gun.damage,
            final(self).gun.per_bullet_time == old(self).gun.per_bullet_time,
            final(self).gun.cool_down_timer as int == cd_after(*old(self), ctrl, dt as int),
            final(self).shooting == shooting_after(*old(self), ctrl, dt as int),
            final(self).dash_timer as int == dash_timer_after(*old(self), dt as int),
            final(self).dashing == dashing_after(*old(self), dt as int),
            final(self).trail_timer == old(self).trail_timer,
            final(self).trail@ == old(self).trail@,
            final(self).title == old(self).title,
            fires(*old(self), ctrl, dt as int) ==> (exists|sx: int, sy: int|
                8_000 <= sx < 16_000 && 8_000 <= sy < 16_000 && final(self).gun.bullets@ == old(
                    self,
                ).gun.bullets@.push(
                    spawned_bullet(*old(self), dir_after(*old(self), ctrl), sx, sy),
                )),
            !fires(*old(self), ctrl, dt as int) ==> final(self).gun.bullets@ == old(
                self,
            ).gun.bullets@,
            player_wf(*final(self)),
    {
        let ghost pre = *old(self);
        let ghost mut spawn_sx: int = 0;
        let ghost mut spawn_sy: int = 0;
        let water = water_rect();
        let in_water = self.entity.rect.has_intersection(&water);
        self.entity.physics.acceleration = Vec2 { x: 0, y: 0 };
        if ctrl.right && !ctrl.left {
            self.entity.physics.dir = 1;
            self.entity.physics.acceleration.x = 4_000;
        }
        if ctrl.left && !ctrl.right {
            self.entity.physics.dir = -1;
            self.entity.physics.acceleration.x = 4_000;
        }
        if ctrl.jump && (self.grounded || in_water) {
            self.entity.physics.acceleration.y = -MAX_VEL_Y;
        }
        let air: i64 = if in_water {
            800
        } else {
            990
        };
        self.entity.physics.vel.y = fx_mul(self.entity.physics.vel.y, air);
        proof {
            lemma_fx_mul_bound(
                pre.entity.physics.vel.y as int,
                air as int,
                12_400_000,
                990,
                12_276_000,
            );
            assert(self.entity.physics.vel.y as int == vy_damped(pre));
            assert(self.entity.physics.dir as int == dir_after(pre, ctrl));
        }
        if ctrl.shoot {
            self.shooting = true;
        }
        if self.shooting {
            self.gun.cool_down_timer = self.gun.cool_down_timer + dt;
            if self.gun.cool_down_timer > self.gun.per_bullet_time {
                self.shooting = false;
                let dir = self.entity.physics.dir;
                let mx: i64 = if dir == 1 {
                    (self.entity.rect.x + 4) * 1000
                } else {
                    (self.entity.rect.x - 4) * 1000
                };
                let cy = self.entity.rect.center().1;
                let my: i64 = (cy - 1) * 1000;
                let mut b = Particle::new(mx, my);
                proof {
                    spawn_sx = b.acceleration.x as int;
                    spawn_sy = b.acceleration.y as int;
                }
                if dir != 1 {
                    b.acceleration.x = -b.acceleration.x;
                }
                proof {
                    assert(b.acceleration.x as int == dir as int * spawn_sx)
                        by (nonlinear_arith)
                        requires
                            dir == 1 || dir == -1,
                            8_000 <= spawn_sx < 16_000,
                            b.acceleration.x == (if dir == 1 {
                                spawn_sx
                            } else {
                                -spawn_sx
                            }),
                    ;
                    assert(b == spawned_bullet(pre, dir_after(pre, ctrl), spawn_sx, spawn_sy));
                }
                self.gun.bullets.push(b);
                self.gun.cool_down_timer = 0;
            }
        }
        proof {
            assert(self.shooting == shooting_after(pre, ctrl, dt as int));
            assert(self.gun.cool_down_timer as int == cd_after(pre, ctrl, dt as int));
        }
        if self.dashing {
            self.dash_timer = self.dash_timer + dt;
            self.entity.physics.acceleration.x = 48_000;
            if self.dash_timer > 80 {
                self.dash_timer = 0;
                self.dashing = false;
            }
        }
        proof {
            assert(self.entity.physics.acceleration.x as int == accel_x_after(pre, ctrl));
            assert(self.dash_timer as int == dash_timer_after(pre, dt as int));
            assert(self.dashing == dashing_after(pre, dt as int));
        }
    }

    /// The integration and collision phases of a tick: the horizontal
    /// velocity pipeline, then each axis integrated and resolved against
    /// the tiles under the cap in force.
    #[verifier::rlimit(100)]
    fn tick_physics(&mut self, dt: i64, max_x: i64, tiles: &Vec<Rect>)
        requires
            player_wf(*old(self)),
            0 < dt <= 10_000,
            tiles_wf(tiles@),
            max_x == 24_000 || max_x == 160_000,
            -12_276_000 <= old(self).entity.physics.vel.y <= 12_276_000,
        ensures
            final(self).entity.physics.vel.x as int == vel_x_stepped(
                old(self).entity.physics.vel.x as int,
                old(self).entity.physics.dir as int,
                old(self).entity.physics.acceleration.x as int,
                max_x as int,
            ),
            (final(self).entity.rect.x as int, final(self).entity.physics.pos.x as int)
                == x_resolved_raw(
                old(self).entity.physics.pos.x as int,
                old(self).entity.rect,
                vel_x_stepped(
                    old(self).entity.physics.vel.x as int,
                    old(self).entity.physics.dir as int,
                    old(self).entity.physics.acceleration.x as int,
                    max_x as int,
                ),
                dt as int,
                tiles@,
            ),
            (
                final(self).entity.rect.y as int,
                final(self).entity.physics.pos.y as int,
                final(self).entity.physics.vel.y as int,
                final(self).grounded,
            ) == y_resolved_raw(
                old(self).entity.physics.pos.y as int,
                old(self).entity.rect,
                x_resolved_raw(
                    old(self).entity.physics.pos.x as int,
                    old(self).entity.rect,
                    vel_x_stepped(
                        old(self).entity.physics.vel.x as int,
                        old(self).entity.physics.dir as int,
                        old(self).entity.physics.acceleration.x as int,
                        max_x as int,
                    ),
                    dt as int,
                    tiles@,
                ).0,
                vel_y_capped_raw(
                    old(self).entity.physics.vel.y as int,
                    old(self).entity.physics.acceleration.y as int,
                ),
                dt as int,
                tiles@,
            ),
            final(self).entity.rect.w == old(self).entity.rect.w,
            final(self).entity.rect.h == old(self).entity.rect.h,
            final(self).entity.physics.dir == old(self).entity.physics.dir,
            final(self).entity.physics.acceleration == old(self).entity.physics.acceleration,
            final(self).entity.hp == old(self).entity.hp,
            final(self).entity.animator == old(self).entity.animator,
            final(self).gun.damage == old(self).gun.damage,
            final(self).gun.per_bullet_time == old(self).gun.per_bullet_time,
            final(self).gun.cool_down_timer == old(self).gun.cool_down_timer,
            final(self).gun.bullets@ == old(self).gun.bullets@,
            final(self).shooting == old(self).shooting,
            final(self).dash_timer == old(self).dash_timer,
            final(self).dashing == old(self).dashing,
            final(self).trail_timer == old(self).trail_timer,
            final(self).trail@ == old(self).trail@,
            final(self).title == old(self).title,
            player_wf(*final(self)),
    {
        let ghost pre = *old(self);
        let dir = self.entity.physics.dir;
        let ax = self.entity.physics.acceleration.x;
        let drive: i64 = if dir == 1 {
            ax
        } else {
            -ax
        };
        proof {
            assert(drive as int == dir as int * ax as int) by (nonlinear_arith)
                requires
                    dir == 1 || dir == -1,
                    drive == (if dir == 1 {
                        ax as int
                    } else {
                        -(ax as int)
                    }),
            ;
        }
        let v1: i64 = self.entity.physics.vel.x + drive;
        let v2: i64 = fx_mul(v1, 900);
        proof {
            lemma_fx_mul_bound(v1 as int, 900, 208_000, 900, 187_200);
        }
        let v3: i64 = fx_to_units(v2) * 1000;
        let vx: i64 = clamp(v3, -max_x, max_x);
        self.entity.physics.vel.x = vx;
        proof {
            assert(vx as int == vel_x_stepped(
                pre.entity.physics.vel.x as int,
                dir as int,
                ax as int,
                max_x as int,
            ));
        }
        let mut px = sat_add(self.entity.physics.pos.x, fx_mul(vx, dt));
        let mut rect = self.entity.rect;
        rect.x = fx_to_units(px);
        resolve_axis_x(&mut rect, &mut px, vx, tiles);
        self.entity.physics.pos.x = px;
        proof {
            assert((rect.x as int, px as int) == x_resolved_raw(
                pre.entity.physics.pos.x as int,
                pre.entity.rect,
                vx as int,
                dt as int,
                tiles@,
            ));
        }
        let vyr: i64 = self.entity.physics.vel.y + self.entity.physics.acceleration.y + 4_000;
        let vy: i64 = if vyr > 64_000 {
            64_000
        } else {
            vyr
        };
        let mut py = sat_add(self.entity.physics.pos.y, fx_mul(vy, dt));
        rect.y = fx_to_units(py);
        let mut vy2 = vy;
        let mut grounded = false;
        resolve_axis_y(&mut rect, &mut py, &mut vy2, &mut grounded, tiles);
        self.entity.physics.pos.y = py;
        self.entity.physics.vel.y = vy2;
        self.grounded = grounded;
        self.entity.rect = rect;
        proof {
            assert((rect.y as int, py as int, vy2 as int, grounded) == y_resolved_raw(
                pre.entity.physics.pos.y as int,
                pre.entity.rect,
                x_resolved_raw(
                    pre.entity.physics.pos.x as int,
                    pre.entity.rect,
                    vx as int,
                    dt as int,
                    tiles@,
                ).0,
                vy as int,
                dt as int,
                tiles@,
            ));
        }
    }

    /// The motion, combat-latch and collision phases of a tick: everything
    /// up to (and excluding) the particle collections' own stepping and
    /// the animation.
    #[verifier::rlimit(100)]
    fn tick_motion(&mut self, dt: i64, ctrl: Intents, tiles: &Vec<Rect>)
        requires
            player_wf(*old(self)),
            0 < dt <= 10_000,
            tiles_wf(tiles@),
        ensures
            final(self).entity.physics.dir as int == dir_after(*old(self), ctrl),
            final(self).entity.physics.acceleration.x as int == accel_x_after(*old(self), ctrl),
            final(self).entity.physics.acceleration.y as int == accel_y_after(*old(self), ctrl),
            final(self).entity.physics.vel.x as int == vel_x_after(*old(self), ctrl),
            (final(self).entity.rect.x as int, final(self).entity.physics.pos.x as int)
                == x_resolved(*old(self), ctrl, dt as int, tiles@),
            (
                final(self).entity.rect.y as int,
                final(self).entity.physics.pos.y as int,
                final(self).entity.physics.vel.y as int,
                final(self).grounded,
            ) == y_resolved(*old(self), ctrl, dt as int, tiles@),
            final(self).entity.rect.w == old(self).entity.rect.w,
            final(self).entity.rect.h == old(self).entity.rect.h,
            final(self).entity.hp == old(self).entity.hp,
            final(self).entity.animator == old(self).entity.animator,
            final(self).gun.damage == old(self).gun.damage,
            final(self).gun.per_bullet_time == old(self).gun.per_bullet_time,
            final(self).gun.cool_down_timer as int == cd_after(*old(self), ctrl, dt as int),
            final(self).shooting == shooting_after(*old(self), ctrl, dt as int),
            final(self).dash_timer as int == dash_timer_after(*old(self), dt as int),
            final(self).dashing == dashing_after(*old(self), dt as int),
            final(self).trail_timer == old(self).trail_timer,
            final(self).trail@ == old(self).trail@,
            final(self).title == old(self).title,
            fires(*old(self), ctrl, dt as int) ==> (exists|sx: int, sy: int|
                8_000 <= sx < 16_000 && 8_000 <= sy < 16_000 && final(self).gun.bullets@ == old(
                    self,
                ).gun.bullets@.push(
                    spawned_bullet(*old(self), dir_after(*old(self), ctrl), sx, sy),
                )),
            !fires(*old(self), ctrl, dt as int) ==> final(self).gun.bullets@ == old(
                self,
            ).gun.bullets@,
            player_wf(*final(self)),
    {
        let ghost pre = *old(self);
        let max_x: i64 = if self.dashing {
            160_000
        } else {
            MAX_VEL_X
        };
        self.tick_intent(dt, ctrl);
        let ghost mid = *self;
        self.tick_physics(dt, max_x, tiles);
        proof {
            assert(max_x as int == max_x_of(pre));
            assert(vel_x_stepped(
                mid.entity.physics.vel.x as int,
                mid.entity.physics.dir as int,
                mid.entity.physics.acceleration.x as int,
                max_x as int,
            ) == vel_x_after(pre, ctrl));
            assert(x_resolved_raw(
                mid.entity.physics.pos.x as int,
                mid.entity.rect,
                vel_x_after(pre, ctrl),
                dt as int,
                tiles@,
            ) == x_resolved(pre, ctrl, dt as int, tiles@));
            assert(vel_y_capped_raw(
                mid.entity.physics.vel.y as int,
                mid.entity.physics.acceleration.y as int,
            ) == vel_y_capped(pre, ctrl));
            assert(y_resolved_raw(
                mid.entity.physics.pos.y as int,
                mid.entity.rect,
                x_resolved(pre, ctrl, dt as int, tiles@).0,
                vel_y_capped(pre, ctrl),
                dt as int,
                tiles@,
            ) == y_resolved(pre, ctrl, dt as int, tiles@));
        }
    }

    /// One tick, driven by this side's input intents against the static
    /// tiles.  The horizontal velocity never leaves the cap in force, and
    /// health is untouched: damage is the ecosystem's business.
    #[verifier::rlimit(100)]
    pub fn update(&mut self, dt: i64, ctrl: Intents, tiles: &Vec<Rect>)
        requires
            player_wf(*old(self)),
            0 < dt <= 10_000,
            tiles_wf(tiles@),
        ensures
            player_step_rel(*old(self), *final(self), dt as int, ctrl, tiles@),
            player_wf(*final(self)),
            old(self).dashing || -24_000 <= final(self).entity.physics.vel.x <= 24_000,
            final(self).entity.hp == old(self).entity.hp,
    {
        let ghost pre = *old(self);
        self.tick_motion(dt, ctrl, tiles);
        let ghost mid = *self;
        step_trail(&mut self.trail, dt);
        let ghost stepped_trail = self.trail@;
        step_bullets(&mut self.gun.bullets, dt);
        self.entity.animator.animate(dt);
        let dir = self.entity.physics.dir;
        if self.entity.physics.vel.x == 0 {
            self.entity.animator.frame.x = 4;
        } else {
            self.trail_timer = self.trail_timer + dt;
            if self.trail_timer > 25 {
                let rect = self.entity.rect;
                let hw: i64 = ((rect.w as u64) / 2) as i64;
                let tx: i64 = if dir == 1 {
                    rect.x * 1000
                } else {
                    (rect.x + 2 * hw) * 1000
                };
                proof {
                    assert(tx as int == (rect.x + hw - hw * dir) * 1000) by (nonlinear_arith)
                        requires
                            dir == 1 || dir == -1,
                            -2_000_000 <= rect.x <= 2_000_000,
                            0 <= hw <= 1_000_000,
                            tx == (if dir == 1 {
                                rect.x as int * 1000
                            } else {
                                (rect.x + 2 * hw) * 1000
                            }),
                    ;
                    assert(tx as int == trail_spawn_x(rect, dir as int));
                }
                let ty: i64 = (rect.y + rect.h) * 1000;
                let mut q = Particle::new(tx, ty);
                q.alpha = 160_000;
                self.trail.push(q);
                self.trail_timer = 0;
            }
        }
        proof {
            let m = player_motion_spec(pre, dt as int, ctrl, tiles@);
            assert(self.entity.animator == animator_after(pre, ctrl, dt as int));
            assert(self.trail_timer as int == trail_timer_after(pre, ctrl, dt as int));
            assert(self.entity == m.entity);
            if emits_trail(pre, ctrl, dt as int) {
                assert(self.trail@.drop_last() =~= stepped_trail);
            }
            assert(trail_clause(pre, *self, dt as int, ctrl, tiles@));
            if fires(pre, ctrl, dt as int) {
                let (sx, sy) = choose|sx: int, sy: int|
                    8_000 <= sx < 16_000 && 8_000 <= sy < 16_000 && mid.gun.bullets@
                        == pre.gun.bullets@.push(
                        spawned_bullet(pre, dir_after(pre, ctrl), sx, sy),
                    );
                assert(self.gun.bullets@ == bullets_step_spec(
                    pre.gun.bullets@.push(spawned_bullet(pre, dir_after(pre, ctrl), sx, sy)),
                    dt as int,
                ));
            }
            assert(bullets_clause(pre, *self, dt as int, ctrl));
        }
    }
}

} // verus!
