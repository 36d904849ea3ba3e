//! Fixed-point scalars: every world quantity is an `i64` holding thousandths
//! of a unit (one world unit = `FX_ONE`).  Multiplication and unit-truncation
//! round toward zero, mirroring the way the simulation quantizes velocities
//! and derives integer pixel coordinates from positions.

use vstd::prelude::*;

verus! {

/// Fixed-point scale: sub-unit steps per world unit.
pub const FX_ONE: i64 = 1000;

/// Positions saturate at this magnitude instead of growing without bound.
pub const POS_LIMIT: i64 = 1_000_000_000;

/// Is `v` within the global fixed-point magnitude bound?
pub open spec fn in_fx_range(v: int) -> bool {
    -2_000_000_000 <= v <= 2_000_000_000
}

/// Quotient of `p` by positive `d`, rounded toward zero.
pub open spec fn trunc_div(p: int, d: int) -> int
    recommends
        d > 0,
{
    if p >= 0 {
        p / d
    } else {
        -((-p) / d)
    }
}

/// Product of two fixed-point values, as a fixed-point value.
pub open spec fn fx_mul_spec(a: int, b: int) -> int {
    trunc_div(a * b, 1000)
}

/// Whole world units of a fixed-point value (fraction dropped toward zero).
pub open spec fn to_units_spec(v: int) -> int {
    trunc_div(v, 1000)
}

/// Magnitude of `v`.
pub open spec fn abs_spec(v: int) -> int {
    if v >= 0 {
        v
    } else {
        -v
    }
}

/// Quotient of two fixed-point values, as a fixed-point value, rounded
/// toward zero.
pub open spec fn fx_div_spec(a: int, b: int) -> int
    recommends
        b != 0,
{
    let q = (abs_spec(a) * 1000) / abs_spec(b);
    if (a < 0) != (b < 0) {
        -q
    } else {
        q
    }
}

/// `v` forced into `[lo, hi]`.
pub open spec fn clamp_spec(v: int, lo: int, hi: int) -> int {
    if v < lo {
        lo
    } else if v > hi {
        hi
    } else {
        v
    }
}

/// `v + delta`, saturated at the position bound.
pub open spec fn sat_add_spec(v: int, delta: int) -> int {
    clamp_spec(v + delta, -1_000_000_000, 1_000_000_000)
}

proof fn lemma_mul_sign_abs(a: int, b: int, ma: int, mb: int)
    requires
        ma == (if a >= 0 { a } else { -a }),
        mb == (if b >= 0 { b } else { -b }),
    ensures
        ma >= 0,
        mb >= 0,
        ma * mb == (if a * b >= 0 { a * b } else { -(a * b) }),
        ((a < 0) != (b < 0)) ==> a * b <= 0,
        !((a < 0) != (b < 0)) ==> a * b >= 0,
{
    assert(ma * mb == (if a * b >= 0 { a * b } else { -(a * b) }) && (((a < 0) != (b < 0)) ==> a
        * b <= 0) && (!((a < 0) != (b < 0)) ==> a * b >= 0)) by (nonlinear_arith)
        requires
            ma == (if a >= 0 { a } else { -a }),
            mb == (if b >= 0 { b } else { -b }),
    ;
}

/// A magnitude bound on a fixed-point product, from magnitude bounds on its
/// factors.
pub proof fn lemma_fx_mul_bound(a: int, b: int, ba: int, bb: int, m: int)
    requires
        abs_spec(a) <= ba,
        abs_spec(b) <= bb,
        ba * bb <= 1000 * m,
        0 <= m,
    ensures
        -m <= fx_mul_spec(a, b) <= m,
{
    let p = a * b;
    lemma_mul_sign_abs(a, b, abs_spec(a), abs_spec(b));
    assert(abs_spec(a) * abs_spec(b) <= ba * bb) by (nonlinear_arith)
        requires
            0 <= abs_spec(a) <= ba,
            0 <= abs_spec(b) <= bb,
    ;
    assert(abs_spec(p) <= 1000 * m);
    crate::fixed::lemma_trunc_div_ordered(abs_spec(p), 1000 * m, 1000);
    vstd::arithmetic::div_mod::lemma_div_multiples_vanish(m, 1000);
    assert(trunc_div(p, 1000) == if p >= 0 {
        abs_spec(p) / 1000
    } else {
        -(abs_spec(p) / 1000)
    });
}

/// Division by a positive amount preserves order on nonnegative values.
pub proof fn lemma_trunc_div_ordered(x: int, y: int, d: int)
    requires
        0 <= x <= y,
        0 < d,
    ensures
        x / d <= y / d,
{
    vstd::arithmetic::div_mod::lemma_div_is_ordered(x, y, d);
}

/// Fixed-point multiply: `(a * b) / 1000`, rounded toward zero.
pub fn fx_mul(a: i64, b: i64) -> (r: i64)
    requires
        -6_000_000_000 <= a <= 6_000_000_000,
        -6_000_000_000 <= b <= 6_000_000_000,
    ensures
        r == fx_mul_spec(a as int, b as int),
        -36_000_000_000_000_000 <= r <= 36_000_000_000_000_000,
{
    let neg: bool = (a < 0) != (b < 0);
    let ma: u64 = if a >= 0 {
        a as u64
    } else {
        (-a) as u64
    };
    let mb: u64 = if b >= 0 {
        b as u64
    } else {
        (-b) as u64
    };
    proof {
        lemma_mul_sign_abs(a as int, b as int, ma as int, mb as int);
        assert((ma as int) * (mb as int) <= 36_000_000_000_000_000_000) by (nonlinear_arith)
            requires
                0 <= ma as int <= 6_000_000_000,
                0 <= mb as int <= 6_000_000_000,
        ;
    }
    let p: u128 = (ma as u128) * (mb as u128);
    let q: u128 = p / 1000;
    proof {
        assert(p as int == (ma as int) * (mb as int));
        assert(q as int == p as int / 1000);
        assert(p as int / 1000 <= 36_000_000_000_000_000) by (nonlinear_arith)
            requires
                0 <= p as int <= 36_000_000_000_000_000_000,
        ;
    }
    if neg {
        -(q as i64)
    } else {
        q as i64
    }
}

/// Whole world units of `v`, the sub-unit fraction dropped toward zero.
pub fn fx_to_units(v: i64) -> (r: i64)
    requires
        -2_200_000_000 <= v <= 2_200_000_000,
    ensures
        r == to_units_spec(v as int),
        -2_200_000 <= r <= 2_200_000,
{
    let m: u64 = if v >= 0 {
        v as u64
    } else {
        (-v) as u64
    };
    let q: u64 = m / 1000;
    if v >= 0 {
        q as i64
    } else {
        -(q as i64)
    }
}

/// Fixed-point divide: `(a * 1000) / b`, rounded toward zero.
pub fn fx_div(a: i64, b: i64) -> (r: i64)
    requires
        in_fx_range(a as int),
        in_fx_range(b as int),
        b != 0,
    ensures
        r == fx_div_spec(a as int, b as int),
        -2_000_000_000_000 <= r <= 2_000_000_000_000,
{
    let neg: bool = (a < 0) != (b < 0);
    let ma: u64 = if a >= 0 {
        a as u64
    } else {
        (-a) as u64
    };
    let mb: u64 = if b >= 0 {
        b as u64
    } else {
        (-b) as u64
    };
    let q: u64 = (ma * 1000) / mb;
    proof {
        assert(q as int == (ma as int * 1000) / (mb as int));
        assert((ma as int * 1000) / (mb as int) <= ma as int * 1000) by (nonlinear_arith)
            requires
                ma as int >= 0,
                mb as int >= 1,
        ;
    }
    if neg {
        -(q as i64)
    } else {
        q as i64
    }
}

/// Half of `v`, rounded toward zero.
pub fn fx_half(v: i64) -> (r: i64)
    requires
        -4_000_000_000_000_000 <= v <= 4_000_000_000_000_000,
    ensures
        r == trunc_div(v as int, 2),
        -2_000_000_000_000_000 <= r <= 2_000_000_000_000_000,
{
    let m: u64 = if v >= 0 {
        v as u64
    } else {
        (-v) as u64
    };
    let q: u64 = m / 2;
    if v >= 0 {
        q as i64
    } else {
        -(q as i64)
    }
}

/// `v + delta`, saturated at the position bound so that integration is total.
pub fn sat_add(v: i64, delta: i64) -> (r: i64)
    requires
        -1_000_000_000_000_000_000 <= v <= 1_000_000_000_000_000_000,
        -1_000_000_000_000_000_000 <= delta <= 1_000_000_000_000_000_000,
    ensures
        r == sat_add_spec(v as int, delta as int),
        -1_000_000_000 <= r <= 1_000_000_000,
{
    let s: i64 = v + delta;
    if s > POS_LIMIT {
        POS_LIMIT
    } else if s < -POS_LIMIT {
        -POS_LIMIT
    } else {
        s
    }
}

/// `v` forced into `[lo, hi]`.
pub fn clamp(v: i64, lo: i64, hi: i64) -> (r: i64)
    requires
        lo <= hi,
    ensures
        r == clamp_spec(v as int, lo as int, hi as int),
{
    if v < lo {
        lo
    } else if v > hi {
        hi
    } else {
        v
    }
}

} // verus!
