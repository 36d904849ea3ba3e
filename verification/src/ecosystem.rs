//! The simulation root: the static tile set, both players, the wandering
//! creatures, ambient bubbles and decor.  Each tick it spawns and drifts
//! bubbles, advances decor, resolves each player's bullets against the
//! other player, and then updates every entity.

use vstd::prelude::*;

use crate::collision::tiles_wf;
use crate::components::{
    animate_spec, animator_wf, particle_wf, Animator, Decor, DecorKind, Particle, Physics, Stat,
};
use crate::entities::{wanderer_step_spec, wanderer_wf, Entity, Wanderer, WandererKind};
use crate::fixed::{abs_spec, clamp, clamp_spec, fx_to_units, sat_add, sat_add_spec, to_units_spec};
use crate::geom::Rect;
use crate::math::Vec2;
use crate::particles::{bubble_rel, step_bubbles};
use crate::player::{player_step_rel, player_wf, Intents, Player};
use crate::rng::random_in;

verus! {

/// The match-scoped simulation root.
pub struct Ecosystem {
    pub bubbles: Vec<Particle>,
    pub decor: Vec<Decor>,
    pub timer: i64,
    pub tiles: Vec<Rect>,
    pub players: Vec<Player>,
    pub bugs: Vec<Wanderer>,
}

/// A valid ecosystem: a valid tile set, exactly two valid players and two
/// valid wanderers, fresh-shaped bubbles, valid decor animators, the spawn
/// timer within its period.
pub open spec fn eco_wf(e: Ecosystem) -> bool {
    &&& tiles_wf(e.tiles@)
    &&& e.players@.len() == 2
    &&& player_wf(e.players@[0])
    &&& player_wf(e.players@[1])
    &&& e.bugs@.len() == 2
    &&& wanderer_wf(e.bugs@[0])
    &&& wanderer_wf(e.bugs@[1])
    &&& 0 <= e.timer <= 1_600
    &&& forall|i: int|
        0 <= i < e.bubbles@.len() ==> particle_wf(#[trigger] e.bubbles@[i]) && e.bubbles@[
            i
        ].acceleration.x > 0
    &&& forall|i: int| 0 <= i < e.decor@.len() ==> animator_wf(#[trigger] e.decor@[i].animator)
}

/// The fixed level geometry: floors, walls, ceiling, a platform and a
/// basin lip.
pub open spec fn level_tiles() -> Seq<Rect> {
    seq![
        Rect { x: 0, y: 42, w: 24, h: 17 },
        Rect { x: 60, y: 42, w: 37, h: 17 },
        Rect { x: 0, y: 13, w: 1, h: 30 },
        Rect { x: 96, y: 13, w: 1, h: 30 },
        Rect { x: 0, y: 0, w: 97, h: 14 },
        Rect { x: 35, y: 42, w: 12, h: 4 },
        Rect { x: 23, y: 58, w: 38, h: 1 },
    ]
}

/// Does the tick's accumulated spawn timer fire the bubble burst?
pub open spec fn spawn_fires(timer: int, dt: int) -> bool {
    timer + dt > 1_600
}

/// The spawn timer after the tick: reset on a burst.
pub open spec fn spawn_timer_after(timer: int, dt: int) -> int {
    if spawn_fires(timer, dt) {
        0
    } else {
        timer + dt
    }
}

/// A just-spawned bubble: full alpha, in the emission band at the basin
/// floor, drifting within the fresh-particle rates.
pub open spec fn bubble_fresh(p: Particle) -> bool {
    &&& 24_000 <= p.x < 59_000
    &&& p.y == 57_000
    &&& p.alpha == 255_000
    &&& 8_000 <= p.acceleration.x < 16_000
    &&& 8_000 <= p.acceleration.y < 16_000
}

/// What a tick's bubble burst may be: on a firing timer, four to seven
/// fresh bubbles; otherwise nothing.
pub open spec fn spawned_ok(s: Seq<Particle>, timer: int, dt: int) -> bool {
    if spawn_fires(timer, dt) {
        4 <= s.len() < 8 && (forall|i: int| 0 <= i < s.len() ==> bubble_fresh(#[trigger] s[i]))
    } else {
        s.len() == 0
    }
}

/// The knockback a shooter's hits apply, in whole units: ten times its
/// horizontal drive, pushed in its facing direction.
pub open spec fn hit_knock(shooter: Player) -> int {
    to_units_spec(10 * shooter.entity.physics.acceleration.x as int)
        * shooter.entity.physics.dir as int
}

/// Resolve a bullet list against a victim box in order: each bullet whose
/// point is inside the current box knocks the box back and costs one
/// health point.  Returns `(rect x, fixed-point x, health, hits)`.
pub open spec fn combat_fold(
    bullets: Seq<Particle>,
    rx: int,
    ry: int,
    w: int,
    h: int,
    px: int,
    hp: int,
    knock: int,
) -> (int, int, int, int)
    decreases bullets.len(),
{
    if bullets.len() == 0 {
        (rx, px, hp, 0)
    } else {
        let bx = to_units_spec(bullets[0].x as int);
        let by = to_units_spec(bullets[0].y as int);
        if rx <= bx < rx + w && ry <= by < ry + h {
            let px2 = sat_add_spec(px, knock * 1000);
            let rx2 = to_units_spec(px2);
            let hp2 = clamp_spec(hp - 1000, -2_000_000_000, 2_000_000_000);
            let r = combat_fold(bullets.skip(1), rx2, ry, w, h, px2, hp2, knock);
            (r.0, r.1, r.2, r.3 + 1)
        } else {
            combat_fold(bullets.skip(1), rx, ry, w, h, px, hp, knock)
        }
    }
}

/// The victim after the shooter's bullets are resolved against it.
pub open spec fn hit_adjusted(victim: Player, shooter: Player) -> Player {
    let c = combat_fold(
        shooter.gun.bullets@,
        victim.entity.rect.x as int,
        victim.entity.rect.y as int,
        victim.entity.rect.w as int,
        victim.entity.rect.h as int,
        victim.entity.physics.pos.x as int,
        victim.entity.hp.current as int,
        hit_knock(shooter),
    );
    Player {
        entity: Entity {
            physics: Physics {
                pos: Vec2 { x: c.1 as i64, ..victim.entity.physics.pos },
                ..victim.entity.physics
            },
            rect: Rect { x: c.0 as i64, ..victim.entity.rect },
            hp: Stat { current: c.2 as i64, ..victim.entity.hp },
            ..victim.entity
        },
        ..victim
    }
}

/// How many of the shooter's bullets hit the victim this tick.
pub open spec fn hits_on(victim: Player, shooter: Player) -> int {
    combat_fold(
        shooter.gun.bullets@,
        victim.entity.rect.x as int,
        victim.entity.rect.y as int,
        victim.entity.rect.w as int,
        victim.entity.rect.h as int,
        victim.entity.physics.pos.x as int,
        victim.entity.hp.current as int,
        hit_knock(shooter),
    ).3
}

/// A player as a fresh match seeds it: `Player::new` at `(x, y)` — at rest
/// there, facing right, full health, a cold gun and no particles.
pub open spec fn spawned_player(p: Player, x: int, y: int) -> bool {
    &&& p.entity.rect == (Rect { x: x as i64, y: y as i64, w: 3, h: 4 })
    &&& p.entity.physics.pos == (Vec2 { x: (x * 1000) as i64, y: (y * 1000) as i64 })
    &&& p.entity.physics.vel == (Vec2 { x: 0, y: 0 })
    &&& p.entity.physics.dir == 1
    &&& p.entity.physics.acceleration == (Vec2 { x: 8_000, y: 9_800 })
    &&& p.entity.hp == (Stat { current: 8_000, max: 8_000 })
    &&& p.entity.animator == (Animator {
        frame: Rect { x: 0, y: 0, w: 3, h: 4 },
        count: 3,
        timer: 0,
        per_frame_time: 100,
    })
    &&& p.gun.damage == 1_000
    &&& p.gun.per_bullet_time == 300
    &&& p.gun.cool_down_timer == 0
    &&& p.gun.bullets@.len() == 0
    &&& p.dash_timer == 0
    &&& p.trail_timer == 0
    &&& !p.dashing
    &&& !p.grounded
    &&& !p.shooting
    &&& p.trail@.len() == 0
}

/// A caterpillar as a fresh match seeds it: somewhere on the upper ledge
/// row, at rest, facing right, with a walk rate of 2 to 4 units per second
/// and some frame of its 3-by-2 strip.
pub open spec fn spawned_bug(w: Wanderer) -> bool {
    &&& w.kind == WandererKind::Caterpillar
    &&& w.entity.rect.y == 40
    &&& 0 <= w.entity.rect.x < 97
    &&& w.entity.rect.w == 3
    &&& w.entity.rect.h == 2
    &&& w.entity.physics.pos == (Vec2 { x: (w.entity.rect.x * 1000) as i64, y: 40_000 })
    &&& w.entity.physics.vel == (Vec2 { x: 0, y: 0 })
    &&& w.entity.physics.dir == 1
    &&& 2_000 <= w.entity.physics.acceleration.x < 4_000
    &&& w.entity.physics.acceleration.y == 49_000
    &&& w.entity.hp == (Stat { current: 2_000, max: 2_000 })
    &&& w.entity.animator.frame.y == 0
    &&& w.entity.animator.frame.w == 3
    &&& w.entity.animator.frame.h == 2
    &&& 0 <= w.entity.animator.frame.x <= 6
    &&& w.entity.animator.frame.x % 3 == 0
    &&& w.entity.animator.count == 3
    &&& w.entity.animator.timer == 0
    &&& w.entity.animator.per_frame_time == 200
}

/// Resolve one shooter's bullets against a victim: every bullet inside the
/// victim's box shakes the camera within four units per axis, knocks the
/// victim back and costs it one health point.  A bullet is not consumed by
/// a hit.
fn resolve_hits(victim: &mut Player, bullets: &Vec<Particle>, knock: i64, camera: &mut Vec2)
    requires
        player_wf(*old(victim)),
        forall|i: int| 0 <= i < bullets@.len() ==> particle_wf(#[trigger] bullets@[i]),
        -480 <= knock <= 480,
        -1_000_000_000 <= old(camera).x <= 1_000_000_000,
        -1_000_000_000 <= old(camera).y <= 1_000_000_000,
    ensures
        ({
            let c = combat_fold(
                bullets@,
                old(victim).entity.rect.x as int,
                old(victim).entity.rect.y as int,
                old(victim).entity.rect.w as int,
                old(victim).entity.rect.h as int,
                old(victim).entity.physics.pos.x as int,
                old(victim).entity.hp.current as int,
                knock as int,
            );
            &&& final(victim).entity.rect.x as int == c.0
            &&& final(victim).entity.physics.pos.x as int == c.1
            &&& final(victim).entity.hp.current as int == c.2
            &&& (c.3 == 0 ==> *final(camera) == *old(camera))
            &&& abs_spec(final(camera).x - old(camera).x) <= 4_000 * c.3
            &&& abs_spec(final(camera).y - old(camera).y) <= 4_000 * c.3
        }),
        final(victim).entity.rect.y == old(victim).entity.rect.y,
        final(victim).entity.rect.w == old(victim).entity.rect.w,
        final(victim).entity.rect.h == old(victim).entity.rect.h,
        final(victim).entity.physics.pos.y == old(victim).entity.physics.pos.y,
        final(victim).entity.physics.vel == old(victim).entity.physics.vel,
        final(victim).entity.physics.dir == old(victim).entity.physics.dir,
        final(victim).entity.physics.acceleration == old(victim).entity.physics.acceleration,
        final(victim).entity.hp.max == old(victim).entity.hp.max,
        final(victim).entity.animator == old(victim).entity.animator,
        final(victim).gun == old(victim).gun,
        final(victim).dash_timer == old(victim).dash_timer,
        final(victim).trail_timer == old(victim).trail_timer,
        final(victim).dashing == old(victim).dashing,
        final(victim).grounded == old(victim).grounded,
        final(victim).shooting == old(victim).shooting,
        final(victim).trail == old(victim).trail,
        final(victim).title == old(victim).title,
        player_wf(*final(victim)),
        -1_000_000_000 <= final(camera).x <= 1_000_000_000,
        -1_000_000_000 <= final(camera).y <= 1_000_000_000,
{
    let ghost all = bullets@;
    let ghost orx = old(victim).entity.rect.x as int;
    let ghost opx = old(victim).entity.physics.pos.x as int;
    let ghost ohp = old(victim).entity.hp.current as int;
    let ghost ry = old(victim).entity.rect.y as int;
    let ghost w = old(victim).entity.rect.w as int;
    let ghost h = old(victim).entity.rect.h as int;
    let ghost cam0 = *old(camera);
    let ghost mut hits: int = 0;
    let mut i: usize = 0;
    proof {
        assert(all.skip(0) =~= all);
    }
    while i < bullets.len()
        invariant
            0 <= i <= all.len(),
            bullets@ == all,
            forall|k: int| 0 <= k < all.len() ==> particle_wf(#[trigger] all[k]),
            -480 <= knock <= 480,
            player_wf(*victim),
            victim.entity.rect.y as int == ry,
            victim.entity.rect.w as int == w,
            victim.entity.rect.h as int == h,
            victim.entity.physics.pos.y == old(victim).entity.physics.pos.y,
            victim.entity.physics.vel == old(victim).entity.physics.vel,
            victim.entity.physics.dir == old(victim).entity.physics.dir,
            victim.entity.physics.acceleration == old(victim).entity.physics.acceleration,
            victim.entity.hp.max == old(victim).entity.hp.max,
            victim.entity.animator == old(victim).entity.animator,
            victim.gun == old(victim).gun,
            victim.dash_timer == old(victim).dash_timer,
            victim.trail_timer == old(victim).trail_timer,
            victim.dashing == old(victim).dashing,
            victim.grounded == old(victim).grounded,
            victim.shooting == old(victim).shooting,
            victim.trail == old(victim).trail,
            victim.title == old(victim).title,
            0 <= hits,
            combat_fold(
                all.skip(i as int),
                victim.entity.rect.x as int,
                ry,
                w,
                h,
                victim.entity.physics.pos.x as int,
                victim.entity.hp.current as int,
                knock as int,
            ).0 == combat_fold(all, orx, ry, w, h, opx, ohp, knock as int).0,
            combat_fold(
                all.skip(i as int),
                victim.entity.rect.x as int,
                ry,
                w,
                h,
                victim.entity.physics.pos.x as int,
                victim.entity.hp.current as int,
                knock as int,
            ).1 == combat_fold(all, orx, ry, w, h, opx, ohp, knock as int).1,
            combat_fold(
                all.skip(i as int),
                victim.entity.rect.x as int,
                ry,
                w,
                h,
                victim.entity.physics.pos.x as int,
                victim.entity.hp.current as int,
                knock as int,
            ).2 == combat_fold(all, orx, ry, w, h, opx, ohp, knock as int).2,
            combat_fold(all, orx, ry, w, h, opx, ohp, knock as int).3 == hits + combat_fold(
                all.skip(i as int),
                victim.entity.rect.x as int,
                ry,
                w,
                h,
                victim.entity.physics.pos.x as int,
                victim.entity.hp.current as int,
                knock as int,
            ).3,
            hits == 0 ==> *camera == cam0,
            abs_spec(camera.x - cam0.x) <= 4_000 * hits,
            abs_spec(camera.y - cam0.y) <= 4_000 * hits,
            -1_000_000_000 <= camera.x <= 1_000_000_000,
            -1_000_000_000 <= camera.y <= 1_000_000_000,
        decreases all.len() - i,
    {
        let b = bullets[i];
        proof {
            assert(all.skip(i as int)[0] == b);
            assert(all.skip(i as int).skip(1) =~= all.skip(i as int + 1));
        }
        let bx = fx_to_units(b.x);
        let by = fx_to_units(b.y);
        if victim.entity.rect.x <= bx && bx < victim.entity.rect.x + victim.entity.rect.w
            && victim.entity.rect.y <= by && by < victim.entity.rect.y + victim.entity.rect.h {
            let shake_x = random_in(-4_000, 4_000);
            let shake_y = random_in(-4_000, 4_000);
            camera.x = sat_add(camera.x, shake_x);
            camera.y = sat_add(camera.y, shake_y);
            victim.entity.physics.pos.x = sat_add(victim.entity.physics.pos.x, knock * 1000);
            victim.entity.rect.x = fx_to_units(victim.entity.physics.pos.x);
            victim.entity.hp.current = clamp(
                victim.entity.hp.current - 1000,
                -2_000_000_000,
                2_000_000_000,
            );
            proof {
                hits = hits + 1;
            }
        }
        i = i + 1;
    }
    proof {
        assert(all.skip(all.len() as int) =~= Seq::<Particle>::empty());
    }
}

impl Ecosystem {
    /// A fresh match: the fixed tile layout, both players at their start
    /// marks, two caterpillars at random spots on the upper ledge, decor in
    /// place, no bubbles, and a spawn timer about to fire.
    pub fn new() -> (r: Ecosystem)
        ensures
            r.tiles@ == level_tiles(),
            r.bubbles@ =~= Seq::<Particle>::empty(),
            r.timer == 1_600,
            r.players@.len() == 2,
            spawned_player(r.players@[0], 14, 22),
            spawned_player(r.players@[1], 83, 22),
            r.players@[0].title@ == "p1"@,
            r.players@[1].title@ == "p2"@,
            r.bugs@.len() == 2,
            spawned_bug(r.bugs@[0]),
            spawned_bug(r.bugs@[1]),
            r.decor@.len() == 4,
            r.decor@[0].pos == (7i64, 46i64) && r.decor@[0].kind == DecorKind::Sewage,
            r.decor@[1].pos == (75i64, 46i64) && r.decor@[1].kind == DecorKind::Sewage,
            r.decor@[2].pos == (34i64, 22i64) && r.decor@[2].kind == DecorKind::Fountain,
            r.decor@[3].pos == (52i64, 14i64) && r.decor@[3].kind == DecorKind::Vine,
            eco_wf(r),
    {
        let mut tiles: Vec<Rect> = Vec::new();
        tiles.push(Rect { x: 0, y: 42, w: 24, h: 17 });
        tiles.push(Rect { x: 60, y: 42, w: 37, h: 17 });
        tiles.push(Rect { x: 0, y: 13, w: 1, h: 30 });
        tiles.push(Rect { x: 96, y: 13, w: 1, h: 30 });
        tiles.push(Rect { x: 0, y: 0, w: 97, h: 14 });
        tiles.push(Rect { x: 35, y: 42, w: 12, h: 4 });
        tiles.push(Rect { x: 23, y: 58, w: 38, h: 1 });
        proof {
            assert(tiles@ =~= level_tiles());
        }
        let mut players: Vec<Player> = Vec::new();
        players.push(Player::new(14, 22, "p1"));
        players.push(Player::new(97 - 14, 22, "p2"));
        let mut bugs: Vec<Wanderer> = Vec::new();
        bugs.push(Wanderer::new(random_in(0, 97), 40, WandererKind::Caterpillar));
        bugs.push(Wanderer::new(random_in(0, 97), 40, WandererKind::Caterpillar));
        let mut decor: Vec<Decor> = Vec::new();
        decor.push(Decor::new((7, 46), DecorKind::Sewage));
        decor.push(Decor::new((75, 46), DecorKind::Sewage));
        decor.push(Decor::new((34, 22), DecorKind::Fountain));
        decor.push(Decor::new((52, 14), DecorKind::Vine));
        Ecosystem { bubbles: Vec::new(), decor, timer: 1_600, tiles, players, bugs }
    }

    /// One tick of the whole world, in order: the bubble spawner, decor
    /// animation, bubble drift, each player's bullets against the other
    /// player (shaking the camera and applying knockback and damage), both
    /// players under their input intents, and both wanderers.
    #[verifier::rlimit(100)]
    pub fn update(&mut self, dt: i64, ctrl0: Intents, ctrl1: Intents, camera: &mut Vec2)
        requires
            eco_wf(*old(self)),
            0 < dt <= 10_000,
            -1_000_000_000 <= old(camera).x <= 1_000_000_000,
            -1_000_000_000 <= old(camera).y <= 1_000_000_000,
        ensures
            eco_wf(*final(self)),
            final(self).tiles@ == old(self).tiles@,
            final(self).decor@.len() == old(self).decor@.len(),
            final(self).timer as int == spawn_timer_after(old(self).timer as int, dt as int),
            forall|i: int|
                0 <= i < old(self).decor@.len() ==> (#[trigger] final(self).decor@[i]).pos
                    == old(self).decor@[i].pos && final(self).decor@[i].kind == old(
                    self).decor@[i].kind && final(self).decor@[i].animator == animate_spec(
                    old(self).decor@[i].animator,
                    dt as int,
                ),
            exists|spawned: Seq<Particle>|
                spawned_ok(spawned, old(self).timer as int, dt as int) && bubble_rel(
                    old(self).bubbles@ + spawned,
                    final(self).bubbles@,
                    dt as int,
                ),
            final(self).players@.len() == 2,
            player_step_rel(
                hit_adjusted(old(self).players@[0], old(self).players@[1]),
                final(self).players@[0],
                dt as int,
                ctrl0,
                old(self).tiles@,
            ),
            player_step_rel(
                hit_adjusted(old(self).players@[1], old(self).players@[0]),
                final(self).players@[1],
                dt as int,
                ctrl1,
                old(self).tiles@,
            ),
            hits_on(old(self).players@[1], old(self).players@[0]) + hits_on(
                old(self).players@[0],
                old(self).players@[1],
            ) == 0 ==> *final(camera) == *old(camera),
            abs_spec(final(camera).x - old(camera).x) <= 4_000 * (hits_on(
                old(self).players@[1],
                old(self).players@[0],
            ) + hits_on(old(self).players@[0], old(self).players@[1])),
            abs_spec(final(camera).y - old(camera).y) <= 4_000 * (hits_on(
                old(self).players@[1],
                old(self).players@[0],
            ) + hits_on(old(self).players@[0], old(self).players@[1])),
            final(self).bugs@.len() == 2,
            final(self).bugs@[0] == wanderer_step_spec(
                old(self).bugs@[0],
                dt as int,
                old(self).tiles@,
            ),
            final(self).bugs@[1] == wanderer_step_spec(
                old(self).bugs@[1],
                dt as int,
                old(self).tiles@,
            ),
            -1_000_000_000 <= final(camera).x <= 1_000_000_000,
            -1_000_000_000 <= final(camera).y <= 1_000_000_000,
    {
        let ghost pre = *old(self);
        let ghost cam0 = *old(camera);
        let ghost mut spawned: Seq<Particle> = Seq::<Particle>::empty();
        self.timer = self.timer + dt;
        if self.timer > 1_600 {
            self.timer = 0;
            let n = random_in(4, 8);
            let mut k: i64 = 0;
            proof {
                assert(self.bubbles@ =~= pre.bubbles@ + spawned);
            }
            while k < n
                invariant
                    0 <= k <= n,
                    4 <= n < 8,
                    spawned.len() == k,
                    self.bubbles@ == pre.bubbles@ + spawned,
                    forall|i: int| 0 <= i < spawned.len() ==> bubble_fresh(#[trigger] spawned[i]),
                    self.timer == 0,
                    self.decor == pre.decor,
                    self.tiles == pre.tiles,
                    self.players == pre.players,
                    self.bugs == pre.bugs,
                decreases n - k,
            {
                let bx = random_in(24_000, 59_000);
                let p = Particle::new(bx, 57_000);
                self.bubbles.push(p);
                proof {
                    assert(pre.bubbles@ + spawned.push(p) =~= (pre.bubbles@ + spawned).push(p));
                    spawned = spawned.push(p);
                }
                k = k + 1;
            }
        }
        proof {
            assert(spawned_ok(spawned, pre.timer as int, dt as int));
            assert(self.timer as int == spawn_timer_after(pre.timer as int, dt as int));
            if !spawn_fires(pre.timer as int, dt as int) {
                assert(self.bubbles@ =~= pre.bubbles@ + spawned);
            }
        }
        let mut fresh_decor: Vec<Decor> = Vec::new();
        let mut di: usize = 0;
        while di < self.decor.len()
            invariant
                0 <= di <= self.decor@.len(),
                self.decor == pre.decor,
                forall|i: int|
                    0 <= i < pre.decor@.len() ==> animator_wf(#[trigger] pre.decor@[i].animator),
                0 < dt <= 10_000,
                fresh_decor@.len() == di,
                forall|i: int|
                    0 <= i < di ==> (#[trigger] fresh_decor@[i]).pos == pre.decor@[i].pos
                        && fresh_decor@[i].kind == pre.decor@[i].kind && fresh_decor@[i].animator
                        == animate_spec(pre.decor@[i].animator, dt as int) && animator_wf(
                        fresh_decor@[i].animator,
                    ),
            decreases self.decor@.len() - di,
        {
            let mut d = self.decor[di];
            d.animator.animate(dt);
            fresh_decor.push(d);
            di = di + 1;
        }
        self.decor = fresh_decor;
        step_bubbles(&mut self.bubbles, dt);
        let mut p1 = self.players.pop().unwrap();
        let mut p0 = self.players.pop().unwrap();
        proof {
            assert(p0 == pre.players@[0]);
            assert(p1 == pre.players@[1]);
        }
        let k0 = knock_value(&p0);
        let k1 = knock_value(&p1);
        resolve_hits(&mut p1, &p0.gun.bullets, k0, camera);
        proof {
            assert(p1 == hit_adjusted(pre.players@[1], pre.players@[0]));
        }
        resolve_hits(&mut p0, &p1.gun.bullets, k1, camera);
        proof {
            assert(p1.gun.bullets@ == pre.players@[1].gun.bullets@);
            assert(p0 == hit_adjusted(pre.players@[0], pre.players@[1]));
        }
        p0.update(dt, ctrl0, &self.tiles);
        p1.update(dt, ctrl1, &self.tiles);
        self.players.push(p0);
        self.players.push(p1);
        let mut b1 = self.bugs.pop().unwrap();
        let mut b0 = self.bugs.pop().unwrap();
        b0.update(dt, &self.tiles);
        b1.update(dt, &self.tiles);
        self.bugs.push(b0);
        self.bugs.push(b1);
    }
}

/// The knockback the given shooter applies, as a runtime value.
fn knock_value(shooter: &Player) -> (r: i64)
    requires
        player_wf(*shooter),
    ensures
        r as int == hit_knock(*shooter),
        -480 <= r <= 480,
{
    let m = fx_to_units(10 * shooter.entity.physics.acceleration.x);
    let dir = shooter.entity.physics.dir;
    let r: i64 = if dir == 1 {
        m
    } else {
        -m
    };
    proof {
        assert(0 <= to_units_spec(10 * shooter.entity.physics.acceleration.x as int) <= 480) by {
            crate::fixed::lemma_trunc_div_ordered(
                10 * shooter.entity.physics.acceleration.x as int,
                480_000,
                1000,
            );
        }
        assert(r as int == m as int * dir as int) by (nonlinear_arith)
            requires
                dir == 1 || dir == -1,
                r == (if dir == 1 {
                    m as int
                } else {
                    -(m as int)
                }),
        ;
    }
    r
}

} // verus!
