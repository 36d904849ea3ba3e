//! Exact-value tests for the fixed-point scalars, vectors, rectangles,
//! animator and particle collections.

use glad_arena::components::{Animator, Decor, DecorKind, Particle, Physics, Stat};
use glad_arena::fixed::{clamp, fx_div, fx_half, fx_mul, fx_to_units, sat_add};
use glad_arena::geom::Rect;
use glad_arena::math::Vec2;
use glad_arena::particles::{step_bubbles, step_bullets, step_trail};

#[test]
fn fixed_point_multiply_rounds_toward_zero() {
    assert_eq!(fx_mul(1500, 2000), 3000);
    assert_eq!(fx_mul(-1500, 2000), -3000);
    assert_eq!(fx_mul(999, 999), 998); // 998001 / 1000, fraction dropped
    assert_eq!(fx_mul(-999, 999), -998);
    assert_eq!(fx_mul(0, 123_456), 0);
}

#[test]
fn fixed_point_divide_and_half() {
    assert_eq!(fx_div(3000, 2000), 1500);
    assert_eq!(fx_div(-3000, 2000), -1500);
    assert_eq!(fx_div(1000, 3000), 333);
    assert_eq!(fx_half(5), 2);
    assert_eq!(fx_half(-5), -2);
}

#[test]
fn unit_truncation_drops_fraction_toward_zero() {
    assert_eq!(fx_to_units(1999), 1);
    assert_eq!(fx_to_units(-1999), -1);
    assert_eq!(fx_to_units(2000), 2);
    assert_eq!(fx_to_units(0), 0);
}

#[test]
fn saturating_add_clamps_at_position_bound() {
    assert_eq!(sat_add(5, 7), 12);
    assert_eq!(sat_add(999_999_999, 2_000), 1_000_000_000);
    assert_eq!(sat_add(-999_999_999, -2_000), -1_000_000_000);
    assert_eq!(clamp(30_000, -24_000, 24_000), 24_000);
    assert_eq!(clamp(-30_000, -24_000, 24_000), -24_000);
}

#[test]
fn vec2_componentwise_arithmetic() {
    let a = Vec2::new(2_000, -3_000);
    let b = Vec2::new(500, 1_000);
    let s = a.add(b);
    assert_eq!((s.x, s.y), (2_500, -2_000));
    let d = a.sub(b);
    assert_eq!((d.x, d.y), (1_500, -4_000));
    let m = a.mul(b);
    assert_eq!((m.x, m.y), (1_000, -3_000));
    let q = a.div(b);
    assert_eq!((q.x, q.y), (4_000, -3_000));
    let k = a.mult(2_000);
    assert_eq!((k.x, k.y), (4_000, -6_000));
}

#[test]
fn rect_intersection_is_strict_at_edges() {
    let a = Rect::new(0, 0, 10, 10);
    let touching = Rect::new(10, 0, 5, 5);
    assert!(!a.has_intersection(&touching));
    let overlapping = Rect::new(9, 9, 5, 5);
    assert!(a.has_intersection(&overlapping));
    assert!(a.contains_point(0, 0));
    assert!(!a.contains_point(10, 0));
    assert_eq!(a.center(), (5, 5));
}

#[test]
fn animator_cycles_through_frames_and_wraps() {
    let mut a = Animator::new(Rect::new(0, 0, 3, 4), 3, 100);
    // dt beyond the span: every call crosses a boundary
    assert!(a.animate(150));
    assert_eq!(a.frame.x, 3);
    assert!(a.animate(150));
    assert_eq!(a.frame.x, 6);
    assert!(a.animate(150));
    assert_eq!(a.frame.x, 0); // one full cycle returns to the start
    // a small dt accumulates without crossing
    assert!(!a.animate(50));
    assert_eq!((a.frame.x, a.timer), (0, 50));
    assert!(a.animate(51)); // 101 > 100 crosses
    assert_eq!((a.frame.x, a.timer), (3, 0));
}

#[test]
fn animator_frame_offset_stays_within_strip() {
    let mut a = Animator::new(Rect::new(0, 0, 8, 12), 4, 100);
    for _ in 0..25 {
        a.animate(130);
        assert!(a.frame.x >= 0 && a.frame.x <= a.frame.w * (a.count - 1));
    }
}

#[test]
fn trail_particles_fade_and_are_removed_exactly_once() {
    // alpha 255 fades at 400 per second: with dt 0.016 that is 6.4 per tick
    let mut trail = vec![Particle::with_drift(10_000, 10_000, 9_000, 9_000)];
    let mut ticks = 0;
    while ticks < 39 {
        step_trail(&mut trail, 16);
        ticks += 1;
        assert_eq!(trail.len(), 1);
        assert_eq!(trail[0].alpha, 255_000 - 6_400 * ticks);
    }
    step_trail(&mut trail, 16); // 5_400 - 6_400 <= 0: the particle goes
    assert!(trail.is_empty());
    step_trail(&mut trail, 16); // pruning an empty collection is a no-op
    assert!(trail.is_empty());
}

#[test]
fn bubbles_rise_and_fade() {
    let mut bubbles = vec![Particle::with_drift(30_000, 57_000, 10_000, 10_000)];
    step_bubbles(&mut bubbles, 16);
    assert_eq!(bubbles.len(), 1);
    assert_eq!(bubbles[0].y, 57_000 - 160); // dt * drift = 16 * 10000 / 1000
    assert_eq!(bubbles[0].alpha, 255_000 - 1_920); // dt * 120 per second
    assert!((bubbles[0].x - 30_000).abs() <= 160);
    // 255000 / 1920 ≈ 132.8 ticks to fade out entirely
    for _ in 0..133 {
        step_bubbles(&mut bubbles, 16);
    }
    assert!(bubbles.is_empty());
}

#[test]
fn bullets_advance_and_are_culled_at_level_bounds() {
    let mut inside = Particle::with_drift(50_000, 30_000, 8_000, 8_000);
    inside.alpha = 255_000;
    let mut bullets = vec![inside];
    step_bullets(&mut bullets, 16);
    assert_eq!(bullets.len(), 1);
    assert_eq!(bullets[0].x, 50_000 + 10 * 128); // ten times rate * dt
    // near the right edge: the next step leaves the level
    let mut edge = vec![Particle::with_drift(96_500, 30_000, 8_000, 8_000)];
    step_bullets(&mut edge, 16);
    assert!(edge.is_empty());
    // a bullet already outside the level bounds is silently discarded
    let mut out = vec![Particle::with_drift(100_000, 30_000, 8_000, 8_000)];
    step_bullets(&mut out, 16);
    assert!(out.is_empty());
}

#[test]
fn fresh_particles_draw_drift_within_range() {
    for _ in 0..20 {
        let p = Particle::new(1_000, 2_000);
        assert_eq!((p.x, p.y, p.alpha), (1_000, 2_000, 255_000));
        assert!(p.acceleration.x >= 8_000 && p.acceleration.x < 16_000);
        assert!(p.acceleration.y >= 8_000 && p.acceleration.y < 16_000);
    }
}

#[test]
fn physics_and_stat_construction() {
    let ph = Physics::new(Vec2::new(7_000, 8_000), Vec2::new(1_000, 2_000));
    assert_eq!((ph.pos.x, ph.pos.y), (7_000, 8_000));
    assert_eq!((ph.vel.x, ph.vel.y), (0, 0));
    assert_eq!(ph.dir, 1);
    let hp = Stat { current: 8_000, max: 8_000 };
    assert_eq!(hp.current, hp.max);
}

#[test]
fn decor_kinds_carry_their_sprite_sizes() {
    let s = Decor::new((7, 46), DecorKind::Sewage);
    assert_eq!((s.animator.frame.w, s.animator.frame.h), (8, 12));
    let f = Decor::new((34, 22), DecorKind::Fountain);
    assert_eq!((f.animator.frame.w, f.animator.frame.h), (16, 20));
    let v = Decor::new((52, 14), DecorKind::Vine);
    assert_eq!((v.animator.frame.w, v.animator.frame.h), (10, 6));
    assert_eq!((v.animator.count, v.animator.per_frame_time), (4, 100));
}
