//! Saturating Q32.32 fixed-point arithmetic.
//!
//! Every scalar the engine computes with is an `i64` holding a signed Q32.32
//! value: the unit amplitude is `FX_ONE`. All operations are total: results
//! that do not fit are clamped to the `i64` range, quotients and scaled
//! products are truncated toward zero, and division by zero yields zero.

use vstd::math::abs;
use vstd::prelude::*;

verus! {

/// The fixed-point representation of 1.0: one whole unit, 2^32.
pub const FX_ONE: i64 = 0x1_0000_0000;

/// The fixed-point representation of 0.5.
pub const FX_HALF: i64 = 0x8000_0000;

pub open spec fn fx_sat(x: int) -> int {
    if x > i64::MAX as int {
        i64::MAX as int
    } else if x < i64::MIN as int {
        i64::MIN as int
    } else {
        x
    }
}

/// Division of `p` by 2^32 truncated toward zero.
pub open spec fn fx_shift_down(p: int) -> int {
    if p >= 0 {
        p / 0x1_0000_0000
    } else {
        -((-p) / 0x1_0000_0000)
    }
}

/// The Q32.32 product: full product scaled down, truncated toward zero,
/// clamped to the `i64` range.
pub open spec fn fx_mul_spec(a: int, b: int) -> int {
    fx_sat(fx_shift_down(a * b))
}

/// The Q32.32 quotient: dividend scaled up by 2^32, divided with truncation
/// toward zero, clamped; zero when the divisor is zero.
pub open spec fn fx_div_spec(a: int, b: int) -> int {
    if b == 0 {
        0
    } else {
        let m = ((abs(a) * 0x1_0000_0000) / abs(b)) as int;
        if (a < 0) != (b < 0) {
            fx_sat(-m)
        } else {
            fx_sat(m)
        }
    }
}

pub open spec fn fx_add_spec(a: int, b: int) -> int {
    fx_sat(a + b)
}

pub open spec fn fx_sub_spec(a: int, b: int) -> int {
    fx_sat(a - b)
}

pub open spec fn fx_abs_spec(a: int) -> int {
    fx_sat(abs(a) as int)
}

/// Clamp a mathematical integer into the `i64` range.
pub fn fx_sat_i128(x: i128) -> (r: i64)
    ensures
        r as int == fx_sat(x as int),
{
    if x > i64::MAX as i128 {
        i64::MAX
    } else if x < i64::MIN as i128 {
        i64::MIN
    } else {
        x as i64
    }
}

/// The magnitude of an `i64` as a `u128`.
fn abs_u128(a: i64) -> (r: u128)
    ensures
        r as int == abs(a as int),
{
    let w = a as i128;
    if w < 0 {
        (-w) as u128
    } else {
        w as u128
    }
}

/// Saturating Q32.32 multiplication.
pub fn fx_mul(a: i64, b: i64) -> (r: i64)
    ensures
        r as int == fx_mul_spec(a as int, b as int),
{
    let ma = abs_u128(a);
    let mb = abs_u128(b);
    proof {
        assert(ma * mb <= 0x8000_0000_0000_0000u128 * 0x8000_0000_0000_0000u128)
            by (nonlinear_arith)
            requires
                ma <= 0x8000_0000_0000_0000u128,
                mb <= 0x8000_0000_0000_0000u128,
        ;
    }
    let p = ma * mb;
    let q = p / 0x1_0000_0000u128;
    let neg = (a < 0) != (b < 0);
    proof {
        assert(abs(a as int) * abs(b as int) == abs((a as int) * (b as int))) by (nonlinear_arith);
        assert((a as int) * (b as int) >= 0 <==> !((a < 0) != (b < 0)) || a == 0 || b == 0)
            by (nonlinear_arith);
    }
    if neg {
        if q > 0x8000_0000_0000_0000u128 {
            i64::MIN
        } else if q == 0x8000_0000_0000_0000u128 {
            i64::MIN
        } else {
            -(q as i64)
        }
    } else {
        if q > i64::MAX as u128 {
            i64::MAX
        } else {
            q as i64
        }
    }
}

/// Saturating Q32.32 division; zero when the divisor is zero.
pub fn fx_div(a: i64, b: i64) -> (r: i64)
    ensures
        r as int == fx_div_spec(a as int, b as int),
{
    if b == 0 {
        return 0;
    }
    let ma = abs_u128(a);
    let mb = abs_u128(b);
    proof {
        assert(ma * 0x1_0000_0000u128 <= 0x8000_0000_0000_0000u128 * 0x1_0000_0000u128)
            by (nonlinear_arith)
            requires
                ma <= 0x8000_0000_0000_0000u128,
        ;
        assert(mb > 0);
    }
    let q = (ma * 0x1_0000_0000u128) / mb;
    let neg = (a < 0) != (b < 0);
    if neg {
        if q >= 0x8000_0000_0000_0000u128 {
            i64::MIN
        } else {
            -(q as i64)
        }
    } else {
        if q > i64::MAX as u128 {
            i64::MAX
        } else {
            q as i64
        }
    }
}

/// Saturating addition.
pub fn fx_add(a: i64, b: i64) -> (r: i64)
    ensures
        r as int == fx_add_spec(a as int, b as int),
{
    fx_sat_i128(a as i128 + b as i128)
}

/// Saturating subtraction.
pub fn fx_sub(a: i64, b: i64) -> (r: i64)
    ensures
        r as int == fx_sub_spec(a as int, b as int),
{
    fx_sat_i128(a as i128 - b as i128)
}

/// Saturating magnitude.
pub fn fx_abs(a: i64) -> (r: i64)
    ensures
        r as int == fx_abs_spec(a as int),
{
    if a == i64::MIN {
        i64::MAX
    } else if a < 0 {
        -a
    } else {
        a
    }
}

/// The integer square root: the largest `r` with `r * r <= n`.
pub fn isqrt_u128(n: u128) -> (r: u64)
    ensures
        (r as int) * (r as int) <= n as int,
        (n as int) < ((r as int) + 1) * ((r as int) + 1),
{
    let mut lo: u128 = 0;
    let mut hi: u128 = 0x1_0000_0000_0000_0000u128;
    proof {
        assert(hi * hi > u128::MAX as int) by (nonlinear_arith)
            requires
                hi == 0x1_0000_0000_0000_0000u128,
        ;
    }
    while hi - lo > 1
        invariant
            lo < hi,
            hi <= 0x1_0000_0000_0000_0000u128,
            (lo as int) * (lo as int) <= n as int,
            (n as int) < (hi as int) * (hi as int),
        decreases hi - lo,
    {
        let mid = lo + (hi - lo) / 2;
        proof {
            assert(mid * mid <= u128::MAX as int) by (nonlinear_arith)
                requires
                    mid < 0x1_0000_0000_0000_0000u128,
            ;
        }
        if mid * mid <= n {
            lo = mid;
        } else {
            hi = mid;
        }
    }
    lo as u64
}

} // verus!
