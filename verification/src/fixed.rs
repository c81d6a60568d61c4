//! Fixed-point scalar arithmetic.
//!
//! Every scalar quantity of the engine (coordinates, timestamps, durations,
//! matrix entries) is an `i64` carrying `FX_ONE` sub-units per world unit.
//! Products are computed exactly in `i128`, rescaled by a floor division by
//! `FX_ONE`, and saturated into `[-FX_MAX, FX_MAX]`, so every operation is
//! total and its result is pinned down exactly by the spec functions below.

use vstd::prelude::*;
use vstd::arithmetic::div_mod::lemma_fundamental_div_mod_converse;

verus! {

/// Number of sub-units in one world unit.
pub const FX_ONE: i64 = 1024;

/// Saturation bound of a well-formed fixed-point value (2^61).
pub const FX_MAX: i64 = 0x2000_0000_0000_0000;

/// A well-formed fixed-point scalar stays inside the saturation range.
pub open spec fn fx_wf(x: i64) -> bool {
    -FX_MAX <= x <= FX_MAX
}

/// Saturate a mathematical integer into the representable range.
pub open spec fn fx_clamp_s(x: int) -> int {
    if x > FX_MAX as int {
        FX_MAX as int
    } else if x < -(FX_MAX as int) {
        -(FX_MAX as int)
    } else {
        x
    }
}

/// Drop the scale factor of a double-scale product: floor division by `FX_ONE`.
pub open spec fn fx_scale_down_s(x: int) -> int {
    x / (FX_ONE as int)
}

/// Saturating addition.
pub open spec fn fx_add_s(a: int, b: int) -> int {
    fx_clamp_s(a + b)
}

/// Saturating subtraction.
pub open spec fn fx_sub_s(a: int, b: int) -> int {
    fx_clamp_s(a - b)
}

/// Saturating fixed-point product: `a * b / FX_ONE`, floored and saturated.
pub open spec fn fx_mul_s(a: int, b: int) -> int {
    fx_clamp_s(fx_scale_down_s(a * b))
}

/// Interpolation factor `num / den` expressed in fixed point: `num * FX_ONE / den`,
/// floored and saturated.
pub open spec fn fx_ratio_s(num: int, den: int) -> int {
    fx_clamp_s((num * (FX_ONE as int)) / den)
}

/// Linear interpolation from `a` towards `b` by the fixed-point factor `f`:
/// `a + (b - a) * f / FX_ONE`, floored and saturated.
pub open spec fn fx_lerp_s(a: int, b: int, f: int) -> int {
    fx_clamp_s(a + fx_scale_down_s((b - a) * f))
}

/// Euclidean remainder: the wrap of `t` into `[0, d)` by floored modulo.
pub open spec fn fx_wrap_s(t: int, d: int) -> int {
    t % d
}

/// Saturate an exact `i128` intermediate into a well-formed `i64`.
pub fn fx_clamp(x: i128) -> (r: i64)
    ensures
        r == fx_clamp_s(x as int),
        fx_wf(r),
{
    if x > FX_MAX as i128 {
        FX_MAX
    } else if x < -(FX_MAX as i128) {
        -FX_MAX
    } else {
        x as i64
    }
}

/// Floor division of an exact product by `FX_ONE`, in `i128`.
pub fn fx_scale_down(x: i128) -> (r: i128)
    requires
        -0x7FFF_FFFF_FFFF_FFFF_FFFF_FFFF_FFFF_FFFF <= x,
    ensures
        r == fx_scale_down_s(x as int),
{
    if x >= 0 {
        let q: u128 = (x as u128) / (FX_ONE as u128);
        q as i128
    } else {
        let m: u128 = (-x) as u128;
        let q: u128 = (m + (FX_ONE - 1) as u128) / (FX_ONE as u128);
        proof {
            lemma_floor_div_neg(x as int, FX_ONE as int);
        }
        -(q as i128)
    }
}

/// For a negative dividend, floor division equals the negated ceiling
/// division of the magnitude.
proof fn lemma_floor_div_neg(x: int, d: int)
    requires
        x < 0,
        d > 0,
    ensures
        x / d == -((-x + d - 1) / d),
{
    let m = -x;
    let q = (m + d - 1) / d;
    let r = (m + d - 1) % d;
    vstd::arithmetic::div_mod::lemma_fundamental_div_mod(m + d - 1, d);
    assert(m + d - 1 == d * q + r);
    assert(0 <= r < d);
    // x == (-q) * d + (d - 1 - r), and 0 <= d - 1 - r < d.
    assert(x == (-q) * d + (d - 1 - r)) by (nonlinear_arith)
        requires
            x == -(d * q + r) + d - 1,
    ;
    lemma_fundamental_div_mod_converse(x, d, -q, d - 1 - r);
}

/// Exact product of two machine scalars, widened to `i128`.
pub fn fx_mul_wide(a: i64, b: i64) -> (r: i128)
    ensures
        r == a as int * b as int,
        -0x4000_0000_0000_0000_0000_0000_0000_0000 <= r
            <= 0x4000_0000_0000_0000_0000_0000_0000_0000,
        fx_wf(a) && fx_wf(b) ==> -0x0400_0000_0000_0000_0000_0000_0000_0000 <= r
            <= 0x0400_0000_0000_0000_0000_0000_0000_0000,
{
    proof {
        assert((a as int) * (b as int) <= 0x4000_0000_0000_0000_0000_0000_0000_0000
            && (a as int) * (b as int) >= -0x4000_0000_0000_0000_0000_0000_0000_0000)
            by (nonlinear_arith)
            requires
                -0x8000_0000_0000_0000 <= a as int <= 0x7FFF_FFFF_FFFF_FFFF,
                -0x8000_0000_0000_0000 <= b as int <= 0x7FFF_FFFF_FFFF_FFFF,
        ;
        if fx_wf(a) && fx_wf(b) {
            assert((a as int) * (b as int) <= 0x0400_0000_0000_0000_0000_0000_0000_0000
                && (a as int) * (b as int) >= -0x0400_0000_0000_0000_0000_0000_0000_0000)
                by (nonlinear_arith)
                requires
                    -0x2000_0000_0000_0000 <= a as int <= 0x2000_0000_0000_0000,
                    -0x2000_0000_0000_0000 <= b as int <= 0x2000_0000_0000_0000,
            ;
        }
    }
    (a as i128) * (b as i128)
}

/// Saturating addition of two scalars.
pub fn fx_add(a: i64, b: i64) -> (r: i64)
    ensures
        r == fx_add_s(a as int, b as int),
        fx_wf(r),
{
    fx_clamp((a as i128) + (b as i128))
}

/// Saturating subtraction of two scalars.
pub fn fx_sub(a: i64, b: i64) -> (r: i64)
    ensures
        r == fx_sub_s(a as int, b as int),
        fx_wf(r),
{
    fx_clamp((a as i128) - (b as i128))
}

/// Saturating fixed-point product.
pub fn fx_mul(a: i64, b: i64) -> (r: i64)
    ensures
        r == fx_mul_s(a as int, b as int),
        fx_wf(r),
{
    let p = fx_mul_wide(a, b);
    let s = fx_scale_down(p);
    fx_clamp(s)
}

/// Fixed-point interpolation factor `num / den`.
pub fn fx_ratio(num: i64, den: i64) -> (r: i64)
    requires
        den > 0,
    ensures
        r == fx_ratio_s(num as int, den as int),
        fx_wf(r),
{
    let p = fx_mul_wide(num, FX_ONE);
    let q = div_floor_wide(p, den);
    fx_clamp(q)
}

/// Floor division of an `i128` by a positive `i64`.
pub fn div_floor_wide(x: i128, d: i64) -> (r: i128)
    requires
        d > 0,
        -0x4000_0000_0000_0000_0000_0000_0000_0000 <= x
            <= 0x4000_0000_0000_0000_0000_0000_0000_0000,
    ensures
        r == x as int / d as int,
{
    if x >= 0 {
        let q: u128 = (x as u128) / (d as u128);
        q as i128
    } else {
        let m: u128 = (-x) as u128;
        let q: u128 = (m + (d - 1) as u128) / (d as u128);
        proof {
            lemma_floor_div_neg(x as int, d as int);
            vstd::arithmetic::div_mod::lemma_div_nonincreasing(
                m as int + (d - 1) as int,
                d as int,
            );
        }
        -(q as i128)
    }
}

/// Linear interpolation between two scalars by a fixed-point factor.
pub fn fx_lerp(a: i64, b: i64, f: i64) -> (r: i64)
    ensures
        r == fx_lerp_s(a as int, b as int, f as int),
        fx_wf(r),
{
    let diff: i128 = (b as i128) - (a as i128);
    proof {
        assert(diff * (f as int) <= 0x7FFF_FFFF_FFFF_FFFF_8000_0000_0000_0000
            && diff * (f as int) >= -0x7FFF_FFFF_FFFF_FFFF_8000_0000_0000_0000)
            by (nonlinear_arith)
            requires
                -0xFFFF_FFFF_FFFF_FFFF <= diff <= 0xFFFF_FFFF_FFFF_FFFF,
                -0x8000_0000_0000_0000 <= f as int <= 0x7FFF_FFFF_FFFF_FFFF,
        ;
    }
    let p: i128 = diff * (f as i128);
    let s = fx_scale_down(p);
    fx_clamp((a as i128) + s)
}

/// Euclidean remainder of `t` modulo a positive period `d`: the result of
/// wrapping `t` into `[0, d)` with floored modulo.
pub fn fx_wrap(t: i64, d: i64) -> (r: i64)
    requires
        d > 0,
    ensures
        r == fx_wrap_s(t as int, d as int),
        0 <= r < d,
{
    if t >= 0 {
        let m: u64 = (t as u64) % (d as u64);
        proof {
            vstd::arithmetic::div_mod::lemma_fundamental_div_mod(t as int, d as int);
        }
        m as i64
    } else {
        let m: u64 = ((-(t as i128)) as u64) % (d as u64);
        proof {
            vstd::arithmetic::div_mod::lemma_fundamental_div_mod(-(t as int), d as int);
        }
        let ghost q = (-(t as int)) / (d as int);
        if m == 0 {
            proof {
                assert(t == (-q) * (d as int) + 0) by (nonlinear_arith)
                    requires
                        -(t as int) == (d as int) * q + 0,
                ;
                lemma_fundamental_div_mod_converse(t as int, d as int, -q, 0);
            }
            0
        } else {
            proof {
                assert(t == (-q - 1) * (d as int) + ((d as int) - (m as int))) by (nonlinear_arith)
                    requires
                        -(t as int) == (d as int) * q + (m as int),
                ;
                lemma_fundamental_div_mod_converse(t as int, d as int, -q - 1, d - m);
            }
            d - (m as i64)
        }
    }
}

/// The smaller of two scalars.
pub fn fx_min(a: i64, b: i64) -> (r: i64)
    ensures
        r == if a <= b { a as int } else { b as int },
{
    if a <= b {
        a
    } else {
        b
    }
}

/// Wrapping a value that already lies in `[0, d)` changes nothing, and
/// advancing it by exactly one full period `d` returns it unchanged.
pub proof fn lemma_wrap_period(t: int, d: int)
    requires
        d > 0,
        0 <= t < d,
    ensures
        fx_wrap_s(t, d) == t,
        fx_wrap_s(t + d, d) == t,
{
    lemma_fundamental_div_mod_converse(t, d, 0, t);
    lemma_fundamental_div_mod_converse(t + d, d, 1, t);
}

/// Interpolating with factor zero yields the start point, and with factor
/// `FX_ONE` the end point, exactly.
pub proof fn lemma_lerp_endpoints(a: int, b: int)
    requires
        -FX_MAX <= a <= FX_MAX,
        -FX_MAX <= b <= FX_MAX,
    ensures
        fx_lerp_s(a, b, 0) == a,
        fx_lerp_s(a, b, FX_ONE as int) == b,
{
    assert((b - a) * 0 == 0);
    assert(fx_scale_down_s(0) == 0) by {
        assert(0int / 1024 == 0);
    }
    assert((b - a) * (FX_ONE as int) / (FX_ONE as int) == b - a) by {
        vstd::arithmetic::div_mod::lemma_div_multiples_vanish(b - a, FX_ONE as int);
    }
}

} // verus!
