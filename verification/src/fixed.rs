//! Fixed-point scalar arithmetic.
//!
//! Continuous quantities (world coordinates, angles in radians, speeds,
//! seconds) are represented as `i64` values scaled by [`FX_ONE`]: the value
//! `v` stands for the real number `v / FX_ONE`. All state transitions of the
//! engine core are exact integer computations on this representation.

use vstd::prelude::*;
use vstd::arithmetic::div_mod::lemma_div_is_ordered;
use vstd::arithmetic::div_mod::lemma_div_pos_is_pos;

verus! {

/// The fixed-point scale: one world unit, one radian, one second.
pub const FX_ONE: i64 = 1_000_000;

/// Largest magnitude accepted by the arithmetic helpers. Products of two
/// such values fit comfortably in `i128` and their rescaled quotients in
/// `i64`.
pub const FX_LIMIT: i64 = 1_099_511_627_776;

/// One full turn (2 pi), in fixed-point radians.
pub const TWO_PI: i64 = 6_283_185;

/// Half a turn (pi), in fixed-point radians.
pub const PI_FX: i64 = 3_141_593;

/// A quarter turn (pi / 2), in fixed-point radians.
pub const HALF_PI: i64 = 1_570_796;

/// The magnitude of `p`.
pub open spec fn abs_int(p: int) -> int {
    if p >= 0 {
        p
    } else {
        -p
    }
}

/// Truncating division (round toward zero), the semantics of `/` on the
/// machine integers, expressed over mathematical integers.
pub open spec fn div_trunc(p: int, d: int) -> int
    recommends
        d > 0,
{
    if p >= 0 {
        p / d
    } else {
        -((-p) / d)
    }
}

/// The fixed-point product of `a` and `b`: the integer product rescaled by
/// `FX_ONE`, rounded toward zero.
pub open spec fn spec_fx_mul(a: int, b: int) -> int {
    div_trunc(a * b, FX_ONE as int)
}

/// The fixed-point quotient of `a` by a positive `b`: `a` rescaled by
/// `FX_ONE` and then divided by `b`, rounded toward zero.
pub open spec fn spec_fx_div(a: int, b: int) -> int
    recommends
        b > 0,
{
    div_trunc(a * (FX_ONE as int), b)
}

/// `v` clamped to the interval `[lo, hi]`.
pub open spec fn spec_clamp(v: int, lo: int, hi: int) -> int
    recommends
        lo <= hi,
{
    if v < lo {
        lo
    } else if v > hi {
        hi
    } else {
        v
    }
}

/// Clamp `v` to `[lo, hi]`.
pub fn fx_clamp(v: i64, lo: i64, hi: i64) -> (r: i64)
    requires
        lo <= hi,
    ensures
        r == spec_clamp(v as int, lo as int, hi as int),
        lo <= r <= hi,
{
    if v < lo {
        lo
    } else if v > hi {
        hi
    } else {
        v
    }
}

proof fn lemma_abs_mul(a: int, b: int)
    ensures
        abs_int(a * b) == abs_int(a) * abs_int(b),
        (a >= 0 && b >= 0) || (a <= 0 && b <= 0) ==> a * b >= 0,
        (a <= 0 && b >= 0) || (a >= 0 && b <= 0) ==> a * b <= 0,
{
    assert(abs_int(a * b) == abs_int(a) * abs_int(b)
        && ((a >= 0 && b >= 0) || (a <= 0 && b <= 0) ==> a * b >= 0)
        && ((a <= 0 && b >= 0) || (a >= 0 && b <= 0) ==> a * b <= 0)) by (nonlinear_arith);
}

pub proof fn lemma_mul_le(a: int, b: int, m: int, n: int)
    requires
        0 <= a <= m,
        0 <= b <= n,
    ensures
        a * b <= m * n,
{
    assert(a * b <= m * n) by (nonlinear_arith)
        requires
            0 <= a <= m,
            0 <= b <= n,
    ;
}

/// Fixed-point multiplication: the result represents the product of the
/// numbers represented by `a` and `b`, rounded toward zero.
pub fn fx_mul(a: i64, b: i64) -> (r: i64)
    requires
        -FX_LIMIT <= a <= FX_LIMIT,
        -FX_LIMIT <= b <= FX_LIMIT,
    ensures
        r == spec_fx_mul(a as int, b as int),
        abs_int(r as int) <= abs_int(a as int) * abs_int(b as int) / (FX_ONE as int),
{
    let neg: bool = (a < 0) != (b < 0);
    let am: u128 = if a < 0 { (-a) as u128 } else { a as u128 };
    let bm: u128 = if b < 0 { (-b) as u128 } else { b as u128 };
    proof {
        lemma_mul_le(am as int, bm as int, FX_LIMIT as int, FX_LIMIT as int);
    }
    let q: u128 = (am * bm) / (FX_ONE as u128);
    proof {
        lemma_abs_mul(a as int, b as int);
        lemma_div_is_ordered(
            (am * bm) as int,
            (FX_LIMIT as int) * (FX_LIMIT as int),
            FX_ONE as int,
        );
        lemma_div_pos_is_pos((am * bm) as int, FX_ONE as int);
        assert((FX_LIMIT as int) * (FX_LIMIT as int) / (FX_ONE as int) < 0x2000_0000_0000_0000);
    }
    if neg {
        -(q as i64)
    } else {
        q as i64
    }
}

/// Fixed-point division by a positive divisor: the result represents the
/// quotient of the numbers represented by `a` and `b`, rounded toward zero.
pub fn fx_div(a: i64, b: i64) -> (r: i64)
    requires
        -FX_LIMIT <= a <= FX_LIMIT,
        b > 0,
    ensures
        r == spec_fx_div(a as int, b as int),
        abs_int(r as int) <= abs_int(a as int) * (FX_ONE as int) / (b as int),
{
    let neg: bool = a < 0;
    let am: u128 = if a < 0 { (-a) as u128 } else { a as u128 };
    proof {
        lemma_mul_le(am as int, FX_ONE as int, FX_LIMIT as int, FX_ONE as int);
    }
    let q: u128 = (am * (FX_ONE as u128)) / (b as u128);
    proof {
        lemma_abs_mul(a as int, FX_ONE as int);
        lemma_div_is_ordered((am * (FX_ONE as u128)) as int, (FX_LIMIT as int) * (FX_ONE as int), b as int);
        lemma_div_pos_is_pos((am * (FX_ONE as u128)) as int, b as int);
        lemma_div_is_ordered_by_denominator_one((FX_LIMIT as int) * (FX_ONE as int), b as int);
        assert((FX_LIMIT as int) * (FX_ONE as int) < 0x2000_0000_0000_0000_0000);
    }
    if neg {
        -(q as i64)
    } else {
        q as i64
    }
}

proof fn lemma_div_is_ordered_by_denominator_one(x: int, d: int)
    requires
        0 <= x,
        1 <= d,
    ensures
        x / d <= x,
{
    vstd::arithmetic::div_mod::lemma_div_is_ordered_by_denominator(x, 1, d);
    vstd::arithmetic::div_mod::lemma_div_basics(x);
}

} // verus!

verus! {

/// `v` wrapped into `[0, TWO_PI)`: the Euclidean remainder modulo one turn.
pub open spec fn spec_wrap(v: int) -> int {
    v % (TWO_PI as int)
}

/// Wrap an angle into `[0, TWO_PI)`.
pub fn wrap_two_pi(v: i64) -> (r: i64)
    requires
        -0x4000_0000_0000_0000 <= v <= 0x4000_0000_0000_0000,
    ensures
        r == spec_wrap(v as int),
        0 <= r < TWO_PI,
{
    let t: u64 = TWO_PI as u64;
    if v >= 0 {
        let r = (v as u64 % t) as i64;
        proof {
            vstd::arithmetic::div_mod::lemma_mod_bound(v as int, TWO_PI as int);
        }
        r
    } else {
        let m = ((-v) as u64 % t) as i64;
        proof {
            let ti = TWO_PI as int;
            let nv = -(v as int);
            vstd::arithmetic::div_mod::lemma_mod_bound(nv, ti);
            vstd::arithmetic::div_mod::lemma_fundamental_div_mod(nv, ti);
            let q = nv / ti;
            let mi = nv % ti;
            if mi == 0 {
                assert(v as int == ti * (-q)) by (nonlinear_arith)
                    requires
                        nv == ti * q + mi,
                        mi == 0,
                        nv == -(v as int),
                ;
                vstd::arithmetic::div_mod::lemma_mod_multiples_basic(-q, ti);
            } else {
                assert(v as int == ti * (-q - 1) + (ti - mi)) by (nonlinear_arith)
                    requires
                        nv == ti * q + mi,
                        nv == -(v as int),
                ;
                vstd::arithmetic::div_mod::lemma_mod_multiples_vanish(-q - 1, ti - mi, ti);
                vstd::arithmetic::div_mod::lemma_small_mod((ti - mi) as nat, ti as nat);
            }
        }
        if m == 0 {
            0
        } else {
            TWO_PI - m
        }
    }
}

/// The quadratic arch `4 x (pi - x) / pi^2` on `[0, pi]`, scaled to fixed
/// point and capped at one: the approximation of the sine on its positive
/// half-turn.
pub open spec fn spec_arch(x: int) -> int
    recommends
        0 <= x <= PI_FX as int,
{
    let p = 4 * x * (PI_FX as int - x) * (FX_ONE as int) / ((PI_FX as int) * (PI_FX as int));
    if p > FX_ONE as int {
        FX_ONE as int
    } else {
        p
    }
}

/// The approximate sine: the arch on `[0, pi)`, its negation on `[pi, 2 pi)`,
/// wrapped periodically.
#[verifier::opaque]
pub open spec fn spec_sin_fx(v: int) -> int {
    let w = spec_wrap(v);
    if w <= PI_FX as int {
        spec_arch(w)
    } else {
        -spec_arch(w - PI_FX as int)
    }
}

/// The approximate cosine: the sine a quarter turn ahead.
pub open spec fn spec_cos_fx(v: int) -> int {
    spec_sin_fx(v + HALF_PI as int)
}

fn arch(x: i64) -> (r: i64)
    requires
        0 <= x <= PI_FX,
    ensures
        r == spec_arch(x as int),
        0 <= r <= FX_ONE,
{
    proof {
        lemma_mul_le(4 * (x as int), (PI_FX - x) as int, 4 * (PI_FX as int), PI_FX as int);
        lemma_mul_le(
            4 * (x as int) * ((PI_FX - x) as int),
            FX_ONE as int,
            4 * (PI_FX as int) * (PI_FX as int),
            FX_ONE as int,
        );
        assert((PI_FX as u128) * (PI_FX as u128) > 0) by (nonlinear_arith);
    }
    let num: u128 = 4 * (x as u128) * ((PI_FX - x) as u128) * (FX_ONE as u128);
    let den: u128 = (PI_FX as u128) * (PI_FX as u128);
    let p = num / den;
    proof {
        assert(4 * (x as int) * (PI_FX as int - x as int) * (FX_ONE as int) == num) by (nonlinear_arith)
            requires
                0 <= x <= PI_FX,
                num == 4 * (x as u128) * ((PI_FX - x) as u128) * (FX_ONE as u128),
        ;
        assert(num <= 4 * (PI_FX as u128) * (PI_FX as u128) * (FX_ONE as u128)) by (nonlinear_arith)
            requires
                num == 4 * (x as u128) * ((PI_FX - x) as u128) * (FX_ONE as u128),
                0 <= x <= PI_FX,
        ;
        vstd::arithmetic::div_mod::lemma_div_is_ordered(
            num as int,
            4 * (PI_FX as int) * (PI_FX as int) * (FX_ONE as int),
            den as int,
        );
        assert(4 * (PI_FX as int) * (PI_FX as int) * (FX_ONE as int) / (den as int) == 4
            * (FX_ONE as int)) by {
            assert(4 * (PI_FX as int) * (PI_FX as int) * (FX_ONE as int) == (den as int) * (4
                * (FX_ONE as int))) by (nonlinear_arith)
                requires
                    den == (PI_FX as u128) * (PI_FX as u128),
            ;
            vstd::arithmetic::div_mod::lemma_div_multiples_vanish(4 * (FX_ONE as int), den as int);
        }
        vstd::arithmetic::div_mod::lemma_div_pos_is_pos(num as int, den as int);
    }
    if p > FX_ONE as u128 {
        FX_ONE
    } else {
        p as i64
    }
}

/// The approximate sine of a fixed-point angle: periodic, zero at zero,
/// always within `[-1, 1]`. A quadratic approximation of each half-turn.
pub fn sin_fx(v: i64) -> (r: i64)
    requires
        -0x0200_0000_0000_0000 <= v <= 0x0200_0000_0000_0000,
    ensures
        r == spec_sin_fx(v as int),
        -FX_ONE <= r <= FX_ONE,
{
    proof {
        reveal(spec_sin_fx);
    }
    let w = wrap_two_pi(v);
    if w <= PI_FX {
        arch(w)
    } else {
        -arch(w - PI_FX)
    }
}

/// The approximate cosine of a fixed-point angle: the sine a quarter turn
/// ahead, always within `[-1, 1]`.
pub fn cos_fx(v: i64) -> (r: i64)
    requires
        -0x0100_0000_0000_0000 <= v <= 0x0100_0000_0000_0000,
    ensures
        r == spec_cos_fx(v as int),
        -FX_ONE <= r <= FX_ONE,
{
    proof {
        reveal(spec_sin_fx);
    }
    sin_fx(v + HALF_PI)
}

/// The integer square root: the largest `r` with `r * r <= n`.
pub fn isqrt(n: u64) -> (r: u64)
    ensures
        r * r <= n,
        n < (r + 1) * (r + 1),
        r <= 0xFFFF_FFFF,
{
    let mut lo: u64 = 0;
    let mut hi: u64 = 4_294_967_295;
    proof {
        assert((4_294_967_295u64 + 1) * (4_294_967_295u64 + 1) > n as int) by (nonlinear_arith)
            requires
                n <= u64::MAX,
        ;
    }
    while lo < hi
        invariant
            lo <= hi,
            lo * lo <= n,
            n < (hi + 1) * (hi + 1),
            hi <= 4_294_967_295,
        decreases hi - lo,
    {
        let mid = lo + (hi - lo + 1) / 2;
        proof {
            assert(lo < mid <= hi) by (nonlinear_arith)
                requires
                    lo < hi,
                    mid == lo + (hi - lo + 1) / 2,
            ;
            lemma_mul_le(mid as int, mid as int, 0xFFFF_FFFF, 0xFFFF_FFFF);
        }
        if (mid as u128) * (mid as u128) <= n as u128 {
            lo = mid;
        } else {
            hi = mid - 1;
        }
    }
    lo
}

} // verus!
