//! Scalar utilities: the Euclidean norm of a pair (by exact integer square
//! root) and linear interpolation. Random vectors need an entropy source and
//! are produced by the embedding.

use vstd::prelude::*;
use crate::fixed::{fx_lerp, fx_lerp_s, fx_mul_wide, fx_wf};

verus! {

/// The integer square root: the unique `r` with `r * r <= x < (r + 1) * (r + 1)`.
pub fn isqrt(x: u128) -> (r: u128)
    requires
        x < 0x4000_0000_0000_0000_0000_0000_0000_0000,
    ensures
        r * r <= x,
        x < (r + 1) * (r + 1),
{
    let mut lo: u128 = 0;
    let mut hi: u128 = 0x8000_0000_0000_0000;
    proof {
        assert((0x8000_0000_0000_0000 as int) * (0x8000_0000_0000_0000 as int)
            == 0x4000_0000_0000_0000_0000_0000_0000_0000);
    }
    while lo + 1 < hi
        invariant
            lo < hi <= 0x8000_0000_0000_0000,
            lo * lo <= x,
            x < hi * hi,
        decreases hi - lo,
    {
        let mid = lo + (hi - lo) / 2;
        proof {
            assert(mid * mid < 0x8000_0000_0000_0000 * 0x8000_0000_0000_0000) by (nonlinear_arith)
                requires
                    0 <= mid < 0x8000_0000_0000_0000,
            ;
        }
        if mid * mid <= x {
            lo = mid;
        } else {
            hi = mid;
        }
    }
    proof {
        assert((lo + 1) * (lo + 1) >= hi * hi) by (nonlinear_arith)
            requires
                0 <= hi <= lo + 1,
        ;
    }
    lo
}

/// The Euclidean norm of the pair `(a, b)`: the integer square root of
/// `a * a + b * b`, exact in fixed point.
pub fn distance(a: i64, b: i64) -> (r: i64)
    requires
        fx_wf(a),
        fx_wf(b),
    ensures
        0 <= r,
        r * r <= a * a + b * b,
        a * a + b * b < (r + 1) * (r + 1),
{
    let aa = fx_mul_wide(a, a);
    let bb = fx_mul_wide(b, b);
    proof {
        assert(a as int * a as int >= 0 && b as int * b as int >= 0) by (nonlinear_arith);
        assert(a as int * a as int <= 0x0400_0000_0000_0000_0000_0000_0000_0000
            && b as int * b as int <= 0x0400_0000_0000_0000_0000_0000_0000_0000) by (nonlinear_arith)
            requires
                -0x2000_0000_0000_0000 <= a as int <= 0x2000_0000_0000_0000,
                -0x2000_0000_0000_0000 <= b as int <= 0x2000_0000_0000_0000,
        ;
    }
    let s: u128 = (aa + bb) as u128;
    let r = isqrt(s);
    proof {
        assert(r * r <= s ==> r < 0x8000_0000_0000_0000) by (nonlinear_arith)
            requires
                s < 0x4000_0000_0000_0000_0000_0000_0000_0000,
        ;
    }
    r as i64
}

/// Linear interpolation from `min` towards `max` by the fixed-point factor
/// `t`.
pub fn lerp(min: i64, max: i64, t: i64) -> (r: i64)
    ensures
        r as int == fx_lerp_s(min as int, max as int, t as int),
        fx_wf(r),
{
    fx_lerp(min, max, t)
}

} // verus!
