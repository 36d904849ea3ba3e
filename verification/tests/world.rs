//! Scenario tests: collision snapping, player movement and combat, the
//! wanderer patrol, the ecosystem tick and the camera pursuit.

use glad_arena::camera::camera_follow;
use glad_arena::collision::resolve_axis_x;
use glad_arena::components::Particle;
use glad_arena::ecosystem::Ecosystem;
use glad_arena::entities::{Wanderer, WandererKind};
use glad_arena::geom::Rect;
use glad_arena::math::Vec2;
use glad_arena::player::{Intents, Player};

fn idle() -> Intents {
    Intents { right: false, left: false, jump: false, shoot: false }
}

#[test]
fn snap_places_box_flush_against_tile_left_edge() {
    // a box moving right into a tile ends flush with the tile's left edge
    let mut rect = Rect::new(4, 0, 3, 4);
    let mut pos_x: i64 = 4_500;
    let tiles = vec![Rect::new(5, 0, 10, 10)];
    resolve_axis_x(&mut rect, &mut pos_x, 1_000, &tiles);
    assert_eq!(rect.x + rect.w, tiles[0].x); // R.right == T.left
    assert!(!rect.has_intersection(&tiles[0]));
    assert_eq!(pos_x, 2_000);
    // and moving left, flush with the tile's right edge
    let mut rect2 = Rect::new(13, 0, 3, 4);
    let mut pos2: i64 = 13_200;
    resolve_axis_x(&mut rect2, &mut pos2, -1_000, &tiles);
    assert_eq!(rect2.x, tiles[0].x + tiles[0].w);
    assert!(!rect2.has_intersection(&tiles[0]));
}

#[test]
fn player_velocity_never_exceeds_cap() {
    let tiles = vec![Rect::new(0, 54, 97, 5)];
    let mut p = Player::new(10, 50, "racer");
    let run = Intents { right: true, left: false, jump: false, shoot: false };
    for _ in 0..50 {
        p.update(16, run, &tiles);
        assert!(p.entity.physics.vel.x.abs() <= 24_000);
    }
    assert_eq!(p.entity.physics.vel.x, 24_000); // the cap is reached and held
    // and the same leftward
    let mut q = Player::new(80, 50, "racer2");
    let run_left = Intents { right: false, left: true, jump: false, shoot: false };
    for _ in 0..50 {
        q.update(16, run_left, &tiles);
        assert!(q.entity.physics.vel.x.abs() <= 24_000);
    }
    assert_eq!(q.entity.physics.vel.x, -24_000);
}

#[test]
fn depleted_health_reports_dead_exactly_at_zero() {
    let mut p = Player::new(0, 0, "frail");
    p.entity.hp.current = 0;
    assert!(p.is_dead());
    p.entity.hp.current = 1; // a thousandth of a point of health left
    assert!(!p.is_dead());
    p.entity.hp.current = -1;
    assert!(p.is_dead());
}

#[test]
fn player_falls_onto_tile_and_grounds() {
    // spawn at the origin over a tile top at height five
    let tiles = vec![Rect::new(0, 5, 10, 1)];
    let mut p = Player::new(0, 0, "faller");
    for _ in 0..100 {
        p.update(16, idle(), &tiles);
    }
    assert_eq!(p.entity.rect.y + p.entity.rect.h, 5);
    assert!(p.grounded);
    assert_eq!(p.entity.physics.pos.y, 1_000);
}

#[test]
fn bullet_crosses_gap_and_costs_one_point_per_overlapping_tick() {
    // two players on a floor, fifty units apart, the shooter facing right
    let mut eco = Ecosystem {
        bubbles: Vec::new(),
        decor: Vec::new(),
        timer: 0,
        tiles: vec![Rect::new(0, 54, 97, 5)],
        players: vec![Player::new(16, 50, "a"), Player::new(66, 50, "b")],
        bugs: vec![
            Wanderer::from_parts(2, 52, WandererKind::Caterpillar, 3_000, 0),
            Wanderer::from_parts(90, 52, WandererKind::Caterpillar, 3_000, 0),
        ],
    };
    let mut cam = Vec2::new(0, 0);
    // one settling tick: both players land and their drives return to zero
    eco.update(16, idle(), idle(), &mut cam);
    assert_eq!(eco.players[1].entity.hp.current, 8_000);
    // a bullet leaves the shooter's muzzle with a known travel rate
    eco.players[0].gun.bullets.push(Particle {
        alpha: 255_000,
        acceleration: Vec2::new(8_000, 9_000),
        x: 20_000,
        y: 52_500,
    });
    let mut first_hit_tick = 0;
    let mut first_drop = 0;
    for tick in 1..60 {
        let before = eco.players[1].entity.hp.current;
        eco.update(16, idle(), idle(), &mut cam);
        let after = eco.players[1].entity.hp.current;
        if first_hit_tick == 0 && after != before {
            first_hit_tick = tick;
            first_drop = before - after;
        }
    }
    // the bullet advances 1.28 units per tick from x=20 and is tested
    // against the victim's box [66, 69) before it moves each tick
    assert_eq!(first_hit_tick, 37);
    assert_eq!(first_drop, 1_000); // exactly the per-hit damage on first overlap
    // the bullet is not consumed by a hit: it stays inside the box for two
    // more ticks and costs a point on each of them
    assert_eq!(eco.players[1].entity.hp.current, 5_000);
    assert!(!eco.players[1].is_dead());
}

#[test]
fn wanderer_patrols_corridor_with_deterministic_period() {
    let tiles = vec![
        Rect::new(0, 30, 30, 5),  // floor
        Rect::new(10, 0, 1, 30),  // left wall
        Rect::new(16, 0, 1, 30),  // right wall
    ];
    let mut w = Wanderer::from_parts(12, 28, WandererKind::Caterpillar, 3_000, 0);
    let mut flips: Vec<(i64, i64, i64)> = Vec::new(); // (tick, dir, rect x)
    let mut dir = w.entity.physics.dir;
    for tick in 1..=250i64 {
        w.update(16, &tiles);
        if w.entity.physics.dir != dir {
            dir = w.entity.physics.dir;
            flips.push((tick, dir, w.entity.rect.x));
        }
    }
    assert!(flips.len() >= 4);
    // each wall snap lands the creature flush with the wall and reverses it
    assert_eq!(flips[0], (42, -1, 13));
    assert_eq!(flips[1], (84, 1, 11));
    assert_eq!(flips[2], (147, -1, 13));
    assert_eq!(flips[3], (189, 1, 11));
    // the corridor period is deterministic: equal legs repeat
    assert_eq!(flips[3].0 - flips[2].0, flips[1].0 - flips[0].0);
}

#[test]
fn fresh_match_layout() {
    let eco = Ecosystem::new();
    assert_eq!(eco.tiles.len(), 7);
    assert_eq!(eco.players.len(), 2);
    assert_eq!(eco.players[0].title(), "p1");
    assert_eq!(eco.players[1].title(), "p2");
    assert_eq!(eco.players[0].entity.rect, Rect::new(14, 22, 3, 4));
    assert_eq!(eco.players[1].entity.rect, Rect::new(83, 22, 3, 4));
    assert_eq!(eco.players[0].entity.hp.current, 8_000);
    assert!(!eco.players[0].is_dead());
    assert_eq!(eco.bugs.len(), 2);
    for bug in &eco.bugs {
        assert!(bug.entity.rect.x >= 0 && bug.entity.rect.x < 97);
        assert_eq!(bug.entity.rect.y, 40);
        let ax = bug.entity.physics.acceleration.x;
        assert!(ax >= 2_000 && ax < 4_000);
    }
    assert_eq!(eco.decor.len(), 4);
    assert!(eco.bubbles.is_empty());
}

#[test]
fn full_match_tick_settles_players_and_spawns_bubbles() {
    let mut eco = Ecosystem::new();
    let mut cam = Vec2::new(0, 0);
    for _ in 0..150 {
        eco.update(16, idle(), idle(), &mut cam);
    }
    // both players have landed on the ledges under their spawn points
    assert!(eco.players[0].grounded);
    assert!(eco.players[1].grounded);
    assert_eq!(eco.players[0].entity.rect.y + eco.players[0].entity.rect.h, 42);
    // the periodic spawner has fired at least once by now (every 1.6 s)
    assert!(!eco.bubbles.is_empty());
    for b in &eco.bubbles {
        assert!(b.alpha > 0);
    }
}

#[test]
fn shooting_is_latched_and_cooldown_gated() {
    let tiles = vec![Rect::new(0, 54, 97, 5)];
    let mut p = Player::new(10, 50, "gunner");
    let fire = Intents { right: false, left: false, jump: false, shoot: true };
    // holding fire: the first bullet appears once the cooldown elapses
    let mut ticks_to_first = 0;
    for tick in 1..40 {
        p.update(16, fire, &tiles);
        if !p.gun.bullets.is_empty() {
            ticks_to_first = tick;
            break;
        }
    }
    // cooldown 0.3 s at 16 ms per tick: 300 / 16 -> fires on tick 19
    assert_eq!(ticks_to_first, 19);
    assert_eq!(p.gun.bullets.len(), 1);
    assert_eq!(p.gun.cool_down_timer, 0);
    // the bullet moves away from the muzzle in the facing direction
    assert!(p.gun.bullets[0].acceleration.x >= 8_000 && p.gun.bullets[0].acceleration.x < 16_000);
}

#[test]
fn jump_needs_ground_or_water() {
    let tiles = vec![Rect::new(0, 54, 97, 5)];
    let mut p = Player::new(10, 20, "jumper");
    let jump = Intents { right: false, left: false, jump: true, shoot: false };
    // mid-air, far from the water zone: a jump press does nothing
    p.update(16, jump, &tiles);
    assert_eq!(p.entity.physics.acceleration.y, 0);
    // grounded: the press applies the full upward impulse
    let mut q = Player::new(10, 50, "jumper2");
    for _ in 0..20 {
        q.update(16, idle(), &tiles);
    }
    assert!(q.grounded);
    q.update(16, jump, &tiles);
    assert_eq!(q.entity.physics.acceleration.y, -120_000);
    assert!(q.entity.physics.vel.y < 0); // moving up
}

#[test]
fn camera_pursues_player_midpoint() {
    let mut cam = Vec2::new(0, 0);
    camera_follow(&mut cam, Vec2::new(10_000, 0), Vec2::new(0, 0), 8_000, 6_000, 1_000);
    // x: (|10 - 0|/2 - 0 - 8/2 + 24.25) * 1.0 = 25.25 units
    assert_eq!(cam.x, 25_250);
    // y: (0 - 0 - 3 + 14.75) * 1.0 = 11.75 units
    assert_eq!(cam.y, 11_750);
    // a second, shorter step moves only a fraction of the remaining term
    camera_follow(&mut cam, Vec2::new(10_000, 0), Vec2::new(0, 0), 8_000, 6_000, 16);
    assert_eq!(cam.x, 25_250 + ((5_000 - 25_250 - 4_000 + 24_250) * 16) / 1_000);
}
