//! Per-tick behaviour of particle collections: the footstep trail, the
//! ambient bubbles and the gun's bullets.  Each tick maps every particle to
//! a moved, faded copy and keeps exactly the copies whose alpha (or, for
//! bullets, position) still qualifies, so a spent particle is removed the
//! tick it fades and a surviving collection is already pruned.

use vstd::prelude::*;

use crate::components::{particle_wf, Particle};
use crate::fixed::{fx_mul, fx_mul_spec, lemma_fx_mul_bound, sat_add, sat_add_spec};
use crate::rng::random_in;

verus! {

/// Alpha lost per second by a footstep-trail particle.
pub const TRAIL_FADE_RATE: i64 = 400_000;

/// Alpha lost per second by an ambient bubble.
pub const BUBBLE_FADE_RATE: i64 = 120_000;

/// Alpha lost by a trail particle over `dt`.
pub open spec fn trail_decay(dt: int) -> int {
    fx_mul_spec(dt, 400_000)
}

/// Alpha lost by a bubble over `dt`.
pub open spec fn bubble_decay(dt: int) -> int {
    fx_mul_spec(dt, 120_000)
}

/// One tick of a fading collection: every particle loses `dec` alpha and
/// moves as `mover` allows; exactly the particles whose new alpha is
/// positive stay, in order.
pub open spec fn faded_rel(
    pre: Seq<Particle>,
    post: Seq<Particle>,
    dec: int,
    mover: spec_fn(Particle, Particle) -> bool,
) -> bool
    decreases pre.len(),
{
    if pre.len() == 0 {
        post.len() == 0
    } else if pre[0].alpha - dec > 0 {
        &&& post.len() >= 1
        &&& post[0].alpha == pre[0].alpha - dec
        &&& mover(pre[0], post[0])
        &&& faded_rel(pre.skip(1), post.skip(1), dec, mover)
    } else {
        faded_rel(pre.skip(1), post, dec, mover)
    }
}

/// How a trail particle may move in one tick: each axis steps by its drift
/// rate times `dt`, in either direction.
pub open spec fn trail_move_rel(p: Particle, q: Particle, dt: int) -> bool {
    &&& q.acceleration == p.acceleration
    &&& (q.x == sat_add_spec(p.x as int, fx_mul_spec(p.acceleration.x as int, dt)) || q.x
        == sat_add_spec(p.x as int, -fx_mul_spec(p.acceleration.x as int, dt)))
    &&& (q.y == sat_add_spec(p.y as int, fx_mul_spec(p.acceleration.y as int, dt)) || q.y
        == sat_add_spec(p.y as int, -fx_mul_spec(p.acceleration.y as int, dt)))
}

/// The trail-particle tick as a two-place predicate over whole collections.
pub open spec fn trail_rel(pre: Seq<Particle>, post: Seq<Particle>, dt: int) -> bool {
    faded_rel(pre, post, trail_decay(dt), (|p: Particle, q: Particle| trail_move_rel(p, q, dt)))
}

/// How a bubble may move in one tick: straight up by its vertical drift
/// rate, and sideways by some jitter below its horizontal drift rate.
pub open spec fn bubble_move_rel(p: Particle, q: Particle, dt: int) -> bool {
    &&& q.acceleration == p.acceleration
    &&& q.y == sat_add_spec(p.y as int, -fx_mul_spec(dt, p.acceleration.y as int))
    &&& (exists|j: int|
        -p.acceleration.x <= j < p.acceleration.x && q.x == sat_add_spec(
            p.x as int,
            fx_mul_spec(dt, j),
        ))
}

/// The bubble tick as a two-place predicate over whole collections.
pub open spec fn bubble_rel(pre: Seq<Particle>, post: Seq<Particle>, dt: int) -> bool {
    faded_rel(pre, post, bubble_decay(dt), (|p: Particle, q: Particle| bubble_move_rel(p, q, dt)))
}

/// A bullet after one tick: advanced horizontally by ten times its stored
/// rate times `dt`.
pub open spec fn bullet_moved(p: Particle, dt: int) -> Particle {
    Particle {
        x: sat_add_spec(p.x as int, 10 * fx_mul_spec(p.acceleration.x as int, dt)) as i64,
        ..p
    }
}

/// Is a bullet still inside the level bounds?
pub open spec fn bullet_in_bounds(p: Particle) -> bool {
    0 < p.x < 97_000 && 0 < p.y < 59_000
}

/// The bullet collection after one tick: every bullet advanced, and only
/// the ones still inside the level bounds kept.
pub open spec fn bullets_step_spec(pre: Seq<Particle>, dt: int) -> Seq<Particle>
    decreases pre.len(),
{
    if pre.len() == 0 {
        Seq::<Particle>::empty()
    } else {
        let m = bullet_moved(pre[0], dt);
        let rest = bullets_step_spec(pre.skip(1), dt);
        if bullet_in_bounds(m) {
            seq![m] + rest
        } else {
            rest
        }
    }
}

/// The particles of `s` whose alpha is positive, in order.
pub open spec fn prune_spec(s: Seq<Particle>) -> Seq<Particle>
    decreases s.len(),
{
    if s.len() == 0 {
        Seq::<Particle>::empty()
    } else if s[0].alpha > 0 {
        seq![s[0]] + prune_spec(s.skip(1))
    } else {
        prune_spec(s.skip(1))
    }
}

/// Every particle a prune keeps has positive alpha.
pub proof fn lemma_prune_alive(s: Seq<Particle>)
    ensures
        forall|i: int| 0 <= i < prune_spec(s).len() ==> #[trigger] prune_spec(s)[i].alpha > 0,
    decreases s.len(),
{
    if s.len() > 0 {
        lemma_prune_alive(s.skip(1));
        if s[0].alpha > 0 {
            assert forall|i: int| 0 <= i < prune_spec(s).len() implies #[trigger] prune_spec(
                s,
            )[i].alpha > 0 by {
                if i == 0 {
                    assert(prune_spec(s)[0] == s[0]);
                } else {
                    assert(prune_spec(s)[i] == prune_spec(s.skip(1))[i - 1]);
                    assert(prune_spec(s.skip(1))[i - 1].alpha > 0);
                }
            }
        } else {
            assert forall|i: int| 0 <= i < prune_spec(s).len() implies #[trigger] prune_spec(
                s,
            )[i].alpha > 0 by {
                assert(prune_spec(s) == prune_spec(s.skip(1)));
                assert(prune_spec(s.skip(1))[i].alpha > 0);
            }
        }
    }
}

/// A collection whose particles all have positive alpha is left unchanged
/// by a prune.
pub proof fn lemma_prune_all_alive(s: Seq<Particle>)
    requires
        forall|i: int| 0 <= i < s.len() ==> #[trigger] s[i].alpha > 0,
    ensures
        prune_spec(s) == s,
    decreases s.len(),
{
    if s.len() == 0 {
        assert(prune_spec(s) =~= s);
    } else {
        assert(forall|i: int|
            0 <= i < s.skip(1).len() ==> #[trigger] s.skip(1)[i].alpha > 0);
        lemma_prune_all_alive(s.skip(1));
        assert(prune_spec(s) =~= s);
    }
}

/// Pruning is idempotent: a particle is removed exactly once, and pruning
/// an already-pruned collection removes nothing.
pub proof fn lemma_prune_idempotent(s: Seq<Particle>)
    ensures
        prune_spec(prune_spec(s)) == prune_spec(s),
{
    lemma_prune_alive(s);
    lemma_prune_all_alive(prune_spec(s));
}

/// Every survivor of a fading tick has positive alpha: the tick leaves the
/// collection already pruned.
pub proof fn lemma_faded_alive(
    pre: Seq<Particle>,
    post: Seq<Particle>,
    dec: int,
    mover: spec_fn(Particle, Particle) -> bool,
)
    requires
        faded_rel(pre, post, dec, mover),
    ensures
        forall|i: int| 0 <= i < post.len() ==> #[trigger] post[i].alpha > 0,
        prune_spec(post) == post,
    decreases pre.len(),
{
    if pre.len() == 0 {
    } else if pre[0].alpha - dec > 0 {
        lemma_faded_alive(pre.skip(1), post.skip(1), dec, mover);
        assert forall|i: int| 0 <= i < post.len() implies #[trigger] post[i].alpha > 0 by {
            if i >= 1 {
                assert(post[i] == post.skip(1)[i - 1]);
                assert(post.skip(1)[i - 1].alpha > 0);
            }
        }
    } else {
        lemma_faded_alive(pre.skip(1), post, dec, mover);
    }
    lemma_prune_all_alive(post);
}

/// Alpha falls uniformly: if every particle entered the tick at or below
/// `bound`, every survivor is at or below `bound - dec`; once the fade over
/// the elapsed ticks reaches the bound, nothing survives.
pub proof fn lemma_faded_alpha_bound(
    pre: Seq<Particle>,
    post: Seq<Particle>,
    dec: int,
    mover: spec_fn(Particle, Particle) -> bool,
    bound: int,
)
    requires
        faded_rel(pre, post, dec, mover),
        forall|i: int| 0 <= i < pre.len() ==> #[trigger] pre[i].alpha <= bound,
    ensures
        forall|i: int| 0 <= i < post.len() ==> #[trigger] post[i].alpha <= bound - dec,
        bound - dec <= 0 ==> post.len() == 0,
    decreases pre.len(),
{
    if pre.len() == 0 {
    } else {
        assert(forall|i: int|
            0 <= i < pre.skip(1).len() ==> #[trigger] pre.skip(1)[i].alpha <= bound);
        if pre[0].alpha - dec > 0 {
            lemma_faded_alpha_bound(pre.skip(1), post.skip(1), dec, mover, bound);
            assert forall|i: int| 0 <= i < post.len() implies #[trigger] post[i].alpha <= bound
                - dec by {
                if i >= 1 {
                    assert(post[i] == post.skip(1)[i - 1]);
                    assert(post.skip(1)[i - 1].alpha <= bound - dec);
                }
            }
        } else {
            lemma_faded_alpha_bound(pre.skip(1), post, dec, mover, bound);
        }
    }
}

/// Appending a surviving particle extends a fading-tick relation.
proof fn lemma_faded_snoc_keep(
    pre: Seq<Particle>,
    post: Seq<Particle>,
    p: Particle,
    q: Particle,
    dec: int,
    mover: spec_fn(Particle, Particle) -> bool,
)
    requires
        faded_rel(pre, post, dec, mover),
        p.alpha - dec > 0,
        q.alpha == p.alpha - dec,
        mover(p, q),
    ensures
        faded_rel(pre.push(p), post.push(q), dec, mover),
    decreases pre.len(),
{
    if pre.len() == 0 {
        assert(pre.push(p)[0] == p);
        assert(post.push(q)[0] == q);
        assert(pre.push(p).skip(1) =~= Seq::<Particle>::empty());
        assert(post.push(q).skip(1) =~= Seq::<Particle>::empty());
        assert(faded_rel(Seq::<Particle>::empty(), Seq::<Particle>::empty(), dec, mover));
    } else if pre[0].alpha - dec > 0 {
        lemma_faded_snoc_keep(pre.skip(1), post.skip(1), p, q, dec, mover);
        assert(pre.push(p).skip(1) =~= pre.skip(1).push(p));
        assert(post.push(q).skip(1) =~= post.skip(1).push(q));
        assert(pre.push(p)[0] == pre[0]);
        assert(post.push(q)[0] == post[0]);
    } else {
        lemma_faded_snoc_keep(pre.skip(1), post, p, q, dec, mover);
        assert(pre.push(p).skip(1) =~= pre.skip(1).push(p));
        assert(pre.push(p)[0] == pre[0]);
    }
}

/// Appending a fading-out particle leaves the survivors unchanged.
proof fn lemma_faded_snoc_drop(
    pre: Seq<Particle>,
    post: Seq<Particle>,
    p: Particle,
    dec: int,
    mover: spec_fn(Particle, Particle) -> bool,
)
    requires
        faded_rel(pre, post, dec, mover),
        p.alpha - dec <= 0,
    ensures
        faded_rel(pre.push(p), post, dec, mover),
    decreases pre.len(),
{
    if pre.len() == 0 {
        assert(pre.push(p)[0] == p);
        assert(pre.push(p).skip(1) =~= Seq::<Particle>::empty());
        assert(faded_rel(Seq::<Particle>::empty(), post, dec, mover));
    } else if pre[0].alpha - dec > 0 {
        lemma_faded_snoc_drop(pre.skip(1), post.skip(1), p, dec, mover);
        assert(pre.push(p).skip(1) =~= pre.skip(1).push(p));
        assert(pre.push(p)[0] == pre[0]);
    } else {
        lemma_faded_snoc_drop(pre.skip(1), post, p, dec, mover);
        assert(pre.push(p).skip(1) =~= pre.skip(1).push(p));
        assert(pre.push(p)[0] == pre[0]);
    }
}

/// One tick of the footstep trail: every particle drifts one step of random
/// sign per axis, fades, and is dropped once spent.
pub fn step_trail(ps: &mut Vec<Particle>, dt: i64)
    requires
        forall|i: int| 0 <= i < old(ps)@.len() ==> particle_wf(#[trigger] old(ps)@[i]),
        0 < dt <= 10_000,
    ensures
        trail_rel(old(ps)@, final(ps)@, dt as int),
        forall|i: int|
            0 <= i < final(ps)@.len() ==> particle_wf(#[trigger] final(ps)@[i]) && (final(
                ps)@[i].alpha > 0),
{
    let ghost mover = (|p: Particle, q: Particle| trail_move_rel(p, q, dt as int));
    let decay: i64 = fx_mul(dt, TRAIL_FADE_RATE);
    proof {
        lemma_fx_mul_bound(dt as int, 400_000, 10_000, 400_000, 4_000_000);
    }
    let mut out: Vec<Particle> = Vec::new();
    let mut i: usize = 0;
    while i < ps.len()
        invariant
            0 <= i <= ps@.len(),
            0 < dt <= 10_000,
            forall|k: int| 0 <= k < ps@.len() ==> particle_wf(#[trigger] ps@[k]),
            decay == trail_decay(dt as int),
            0 <= decay <= 4_000_000,
            mover == (|p: Particle, q: Particle| trail_move_rel(p, q, dt as int)),
            faded_rel(ps@.take(i as int), out@, decay as int, mover),
            forall|k: int|
                0 <= k < out@.len() ==> particle_wf(#[trigger] out@[k]) && out@[k].alpha > 0,
        decreases ps@.len() - i,
    {
        let p = ps[i];
        let na: i64 = p.alpha - decay;
        if na > 0 {
            let dx: i64 = fx_mul(p.acceleration.x, dt);
            let dy: i64 = fx_mul(p.acceleration.y, dt);
            let sx = random_in(0, 2);
            let sy = random_in(0, 2);
            let nx: i64 = if sx == 0 {
                sat_add(p.x, -dx)
            } else {
                sat_add(p.x, dx)
            };
            let ny: i64 = if sy == 0 {
                sat_add(p.y, -dy)
            } else {
                sat_add(p.y, dy)
            };
            let q = Particle { alpha: na, acceleration: p.acceleration, x: nx, y: ny };
            proof {
                assert(mover(p, q));
                lemma_faded_snoc_keep(ps@.take(i as int), out@, p, q, decay as int, mover);
                assert(ps@.take(i as int + 1) =~= ps@.take(i as int).push(p));
            }
            out.push(q);
        } else {
            proof {
                lemma_faded_snoc_drop(ps@.take(i as int), out@, p, decay as int, mover);
                assert(ps@.take(i as int + 1) =~= ps@.take(i as int).push(p));
            }
        }
        i = i + 1;
    }
    proof {
        assert(ps@.take(ps@.len() as int) =~= ps@);
    }
    *ps = out;
}

/// One tick of the ambient bubbles: every bubble rises, jitters sideways
/// below its drift rate, fades, and is dropped once spent.
pub fn step_bubbles(ps: &mut Vec<Particle>, dt: i64)
    requires
        forall|i: int|
            0 <= i < old(ps)@.len() ==> particle_wf(#[trigger] old(ps)@[i]) && (old(
                ps)@[i].acceleration.x > 0),
        0 < dt <= 10_000,
    ensures
        bubble_rel(old(ps)@, final(ps)@, dt as int),
        forall|i: int|
            0 <= i < final(ps)@.len() ==> particle_wf(#[trigger] final(ps)@[i]) && (final(
                ps)@[i].alpha > 0) && final(ps)@[i].acceleration.x > 0,
{
    let ghost mover = (|p: Particle, q: Particle| bubble_move_rel(p, q, dt as int));
    let decay: i64 = fx_mul(dt, BUBBLE_FADE_RATE);
    proof {
        lemma_fx_mul_bound(dt as int, 120_000, 10_000, 120_000, 1_200_000);
    }
    let mut out: Vec<Particle> = Vec::new();
    let mut i: usize = 0;
    while i < ps.len()
        invariant
            0 <= i <= ps@.len(),
            0 < dt <= 10_000,
            forall|k: int|
                0 <= k < ps@.len() ==> particle_wf(#[trigger] ps@[k]) && ps@[k].acceleration.x
                    > 0,
            decay == bubble_decay(dt as int),
            0 <= decay <= 1_200_000,
            mover == (|p: Particle, q: Particle| bubble_move_rel(p, q, dt as int)),
            faded_rel(ps@.take(i as int), out@, decay as int, mover),
            forall|k: int|
                0 <= k < out@.len() ==> particle_wf(#[trigger] out@[k]) && out@[k].alpha > 0
                    && out@[k].acceleration.x > 0,
        decreases ps@.len() - i,
    {
        let p = ps[i];
        let na: i64 = p.alpha - decay;
        if na > 0 {
            let dy: i64 = fx_mul(dt, p.acceleration.y);
            let j: i64 = random_in(-p.acceleration.x, p.acceleration.x);
            let dx: i64 = fx_mul(dt, j);
            let q = Particle {
                alpha: na,
                acceleration: p.acceleration,
                x: sat_add(p.x, dx),
                y: sat_add(p.y, -dy),
            };
            proof {
                assert(q.x == sat_add_spec(p.x as int, fx_mul_spec(dt as int, j as int)));
                assert(mover(p, q));
                lemma_faded_snoc_keep(ps@.take(i as int), out@, p, q, decay as int, mover);
                assert(ps@.take(i as int + 1) =~= ps@.take(i as int).push(p));
            }
            out.push(q);
        } else {
            proof {
                lemma_faded_snoc_drop(ps@.take(i as int), out@, p, decay as int, mover);
                assert(ps@.take(i as int + 1) =~= ps@.take(i as int).push(p));
            }
        }
        i = i + 1;
    }
    proof {
        assert(ps@.take(ps@.len() as int) =~= ps@);
    }
    *ps = out;
}

/// Appending a bullet extends the bullet tick by its moved copy, kept or
/// culled by the bounds test.
proof fn lemma_bullets_snoc(pre: Seq<Particle>, p: Particle, dt: int)
    ensures
        bullets_step_spec(pre.push(p), dt) == if bullet_in_bounds(bullet_moved(p, dt)) {
            bullets_step_spec(pre, dt) + seq![bullet_moved(p, dt)]
        } else {
            bullets_step_spec(pre, dt)
        },
    decreases pre.len(),
{
    if pre.len() == 0 {
        assert(pre.push(p)[0] == p);
        assert(pre.push(p).skip(1) =~= Seq::<Particle>::empty());
        assert(bullets_step_spec(Seq::<Particle>::empty(), dt) =~= Seq::<Particle>::empty());
        assert(bullets_step_spec(pre, dt) =~= Seq::<Particle>::empty());
        if bullet_in_bounds(bullet_moved(p, dt)) {
            assert(bullets_step_spec(pre.push(p), dt) =~= bullets_step_spec(pre, dt) + seq![
                bullet_moved(p, dt),
            ]);
        } else {
            assert(bullets_step_spec(pre.push(p), dt) =~= bullets_step_spec(pre, dt));
        }
    } else {
        lemma_bullets_snoc(pre.skip(1), p, dt);
        assert(pre.push(p).skip(1) =~= pre.skip(1).push(p));
        assert(pre.push(p)[0] == pre[0]);
        if bullet_in_bounds(bullet_moved(p, dt)) {
            assert(bullets_step_spec(pre.push(p), dt) =~= bullets_step_spec(pre, dt) + seq![
                bullet_moved(p, dt),
            ]);
        } else {
            assert(bullets_step_spec(pre.push(p), dt) =~= bullets_step_spec(pre, dt));
        }
    }
}

/// One tick of a gun's bullets: every bullet advances by ten times its
/// stored horizontal rate, and only the ones still inside the level bounds
/// stay.
pub fn step_bullets(ps: &mut Vec<Particle>, dt: i64)
    requires
        forall|i: int| 0 <= i < old(ps)@.len() ==> particle_wf(#[trigger] old(ps)@[i]),
        0 < dt <= 10_000,
    ensures
        final(ps)@ == bullets_step_spec(old(ps)@, dt as int),
        forall|i: int| 0 <= i < final(ps)@.len() ==> particle_wf(#[trigger] final(ps)@[i]),
{
    let mut out: Vec<Particle> = Vec::new();
    let mut i: usize = 0;
    while i < ps.len()
        invariant
            0 <= i <= ps@.len(),
            0 < dt <= 10_000,
            forall|k: int| 0 <= k < ps@.len() ==> particle_wf(#[trigger] ps@[k]),
            out@ == bullets_step_spec(ps@.take(i as int), dt as int),
            forall|k: int| 0 <= k < out@.len() ==> particle_wf(#[trigger] out@[k]),
        decreases ps@.len() - i,
    {
        let p = ps[i];
        let dx: i64 = fx_mul(p.acceleration.x, dt);
        let m = Particle { x: sat_add(p.x, 10 * dx), ..p };
        proof {
            lemma_bullets_snoc(ps@.take(i as int), p, dt as int);
            assert(ps@.take(i as int + 1) =~= ps@.take(i as int).push(p));
            assert(m == bullet_moved(p, dt as int));
        }
        if 0 < m.x && m.x < 97_000 && 0 < m.y && m.y < 59_000 {
            out.push(m);
        }
        i = i + 1;
    }
    proof {
        assert(ps@.take(ps@.len() as int) =~= ps@);
    }
    *ps = out;
}

} // verus!
