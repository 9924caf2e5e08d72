//! Fixed-point trigonometric, exponential and logarithmic evaluation.
//!
//! Each function computes a truncated-series approximation in Q32.32
//! arithmetic, and its contract states the evaluated polynomial exactly.
//! Approximation error against the real function is a few units in the
//! seventh decimal place over the stated domains; the contracts do not
//! claim accuracy, they pin the computed value down.

use crate::fixed::{fx_add, fx_div, fx_mul, fx_sub, FX_ONE};
use crate::fixed::{fx_add_spec, fx_div_spec, fx_mul_spec, fx_sat, fx_sub_spec};
use vstd::arithmetic::power2::{lemma2_to64, lemma_pow2_strictly_increases, pow2};
use vstd::prelude::*;

verus! {

/// Pi in Q32.32, rounded down.
pub const FX_PI: i64 = 13493037704;

/// Two pi in Q32.32, rounded down.
pub const FX_TWO_PI: i64 = 26986075409;

/// Pi over two in Q32.32, rounded down.
pub const FX_HALF_PI: i64 = 6746518852;

/// The natural logarithm of two in Q32.32.
pub const FX_LN2: i64 = 2977044472;

/// The base-two logarithm of Euler's number in Q32.32.
pub const FX_LOG2_E: i64 = 6196328019;

/// The base-two logarithm of ten in Q32.32.
pub const FX_LOG2_10: i64 = 14267572527;

/// Twenty times the base-ten logarithm of two in Q32.32: the decibel
/// value of one amplitude octave.
pub const FX_DB_PER_LOG2: i64 = 25858279730;

pub const INV2: i64 = 2147483648;
pub const INV6: i64 = 715827883;
pub const INV24: i64 = 178956971;
pub const INV120: i64 = 35791394;
pub const INV720: i64 = 5965232;
pub const INV5040: i64 = 852176;
pub const INV40320: i64 = 106522;
pub const INV362880: i64 = 11836;
pub const INV3: i64 = 1431655765;
pub const INV5: i64 = 858993459;
pub const INV7: i64 = 613566757;

/// The degree-nine sine series at `x`:
/// `x * (1 - x^2 * (1/6 - x^2 * (1/120 - x^2 * (1/5040 - x^2/362880))))`.
pub open spec fn sin_series_spec(x: int) -> int {
    let x2 = fx_mul_spec(x, x);
    fx_mul_spec(
        x,
        fx_sub_spec(
            FX_ONE as int,
            fx_mul_spec(
                x2,
                fx_sub_spec(
                    INV6 as int,
                    fx_mul_spec(
                        x2,
                        fx_sub_spec(
                            INV120 as int,
                            fx_mul_spec(
                                x2,
                                fx_sub_spec(INV5040 as int, fx_mul_spec(x2, INV362880 as int)),
                            ),
                        ),
                    ),
                ),
            ),
        ),
    )
}

/// The degree-eight cosine series at `x`:
/// `1 - x^2 * (1/2 - x^2 * (1/24 - x^2 * (1/720 - x^2/40320)))`.
pub open spec fn cos_series_spec(x: int) -> int {
    let x2 = fx_mul_spec(x, x);
    fx_sub_spec(
        FX_ONE as int,
        fx_mul_spec(
            x2,
            fx_sub_spec(
                INV2 as int,
                fx_mul_spec(
                    x2,
                    fx_sub_spec(
                        INV24 as int,
                        fx_mul_spec(
                            x2,
                            fx_sub_spec(INV720 as int, fx_mul_spec(x2, INV40320 as int)),
                        ),
                    ),
                ),
            ),
        ),
    )
}

/// The sine of an angle in `[0, pi]`, by folding onto `[0, pi/2]`.
pub open spec fn fx_sin_spec(x: int) -> int {
    if x > FX_HALF_PI as int {
        sin_series_spec(FX_PI as int - x)
    } else {
        sin_series_spec(x)
    }
}

/// The cosine of an angle in `[0, two pi]`, by folding onto `[0, pi/2]`.
pub open spec fn fx_cos_spec(x: int) -> int {
    let y = if x > FX_PI as int {
        FX_TWO_PI as int - x
    } else {
        x
    };
    if y > FX_HALF_PI as int {
        fx_sub_spec(0, cos_series_spec(FX_PI as int - y))
    } else {
        cos_series_spec(y)
    }
}

fn sin_series(x: i64) -> (r: i64)
    ensures
        r as int == sin_series_spec(x as int),
{
    let x2 = fx_mul(x, x);
    fx_mul(
        x,
        fx_sub(
            FX_ONE,
            fx_mul(
                x2,
                fx_sub(
                    INV6,
                    fx_mul(
                        x2,
                        fx_sub(INV120, fx_mul(x2, fx_sub(INV5040, fx_mul(x2, INV362880)))),
                    ),
                ),
            ),
        ),
    )
}

fn cos_series(x: i64) -> (r: i64)
    ensures
        r as int == cos_series_spec(x as int),
{
    let x2 = fx_mul(x, x);
    fx_sub(
        FX_ONE,
        fx_mul(
            x2,
            fx_sub(
                INV2,
                fx_mul(x2, fx_sub(INV24, fx_mul(x2, fx_sub(INV720, fx_mul(x2, INV40320))))),
            ),
        ),
    )
}

/// The sine of an angle in `[0, pi]` radians, Q32.32 in and out.
pub fn fx_sin(x: i64) -> (r: i64)
    requires
        0 <= x <= FX_PI as int,
    ensures
        r as int == fx_sin_spec(x as int),
{
    if x > FX_HALF_PI {
        sin_series(FX_PI - x)
    } else {
        sin_series(x)
    }
}

/// The cosine of an angle in `[0, two pi]` radians, Q32.32 in and out.
pub fn fx_cos(x: i64) -> (r: i64)
    requires
        0 <= x <= FX_TWO_PI as int,
    ensures
        r as int == fx_cos_spec(x as int),
{
    let y = if x > FX_PI {
        FX_TWO_PI - x
    } else {
        x
    };
    if y > FX_HALF_PI {
        let c = cos_series(FX_PI - y);
        fx_sub(0, c)
    } else {
        cos_series(y)
    }
}

/// The degree-seven exponential series at `g`:
/// `1 + g * (1 + g * (1/2 + g * (1/6 + g * (1/24 + g * (1/120 + g * (1/720 + g/5040))))))`.
pub open spec fn exp_series_spec(g: int) -> int {
    fx_add_spec(
        FX_ONE as int,
        fx_mul_spec(
            g,
            fx_add_spec(
                FX_ONE as int,
                fx_mul_spec(
                    g,
                    fx_add_spec(
                        INV2 as int,
                        fx_mul_spec(
                            g,
                            fx_add_spec(
                                INV6 as int,
                                fx_mul_spec(
                                    g,
                                    fx_add_spec(
                                        INV24 as int,
                                        fx_mul_spec(
                                            g,
                                            fx_add_spec(
                                                INV120 as int,
                                                fx_mul_spec(
                                                    g,
                                                    fx_add_spec(
                                                        INV720 as int,
                                                        fx_mul_spec(g, INV5040 as int),
                                                    ),
                                                ),
                                            ),
                                        ),
                                    ),
                                ),
                            ),
                        ),
                    ),
                ),
            ),
        ),
    )
}

/// Two raised to a fractional exponent `f` in `[0, 1)`, as the exponential
/// series at `f * ln 2`.
pub open spec fn exp2_frac_spec(f: int) -> int {
    exp_series_spec(fx_mul_spec(f, FX_LN2 as int))
}

/// Two raised to a Q32.32 exponent, saturating upward and flushing tiny
/// results to zero: exponents of 31 or more whole bits saturate, exponents
/// of minus 63 or fewer yield zero.
#[verifier::opaque]
pub open spec fn fx_exp2_spec(y: int) -> int {
    if y >= 0 {
        let k = y / 0x1_0000_0000;
        let f = y % 0x1_0000_0000;
        if k >= 31 {
            i64::MAX as int
        } else {
            fx_sat(exp2_frac_spec(f) * pow2(k as nat))
        }
    } else {
        let n = -y;
        let kq = n / 0x1_0000_0000;
        let rem = n % 0x1_0000_0000;
        let k = if rem == 0 {
            kq
        } else {
            kq + 1
        };
        let f = if rem == 0 {
            0
        } else {
            0x1_0000_0000 - rem
        };
        if k >= 63 {
            0
        } else {
            exp2_frac_spec(f) / (pow2(k as nat) as int)
        }
    }
}

proof fn lemma_fx_mul_nonneg(a: int, b: int)
    requires
        a >= 0,
        b >= 0,
    ensures
        fx_mul_spec(a, b) >= 0,
{
    assert(a * b >= 0) by (nonlinear_arith)
        requires
            a >= 0,
            b >= 0,
    ;
}

proof fn lemma_exp_series_nonneg(g: int)
    requires
        g >= 0,
    ensures
        exp_series_spec(g) >= 0,
{
    lemma_fx_mul_nonneg(g, INV5040 as int);
    lemma_fx_mul_nonneg(g, fx_add_spec(INV720 as int, fx_mul_spec(g, INV5040 as int)));
    let t5 = fx_add_spec(
        INV120 as int,
        fx_mul_spec(g, fx_add_spec(INV720 as int, fx_mul_spec(g, INV5040 as int))),
    );
    lemma_fx_mul_nonneg(g, t5);
    let t4 = fx_add_spec(INV24 as int, fx_mul_spec(g, t5));
    lemma_fx_mul_nonneg(g, t4);
    let t3 = fx_add_spec(INV6 as int, fx_mul_spec(g, t4));
    lemma_fx_mul_nonneg(g, t3);
    let t2 = fx_add_spec(INV2 as int, fx_mul_spec(g, t3));
    lemma_fx_mul_nonneg(g, t2);
    let t1 = fx_add_spec(FX_ONE as int, fx_mul_spec(g, t2));
    lemma_fx_mul_nonneg(g, t1);
}

fn exp2_frac(f: i64) -> (r: i64)
    requires
        0 <= f < 0x1_0000_0000,
    ensures
        r as int == exp2_frac_spec(f as int),
        r >= 0,
{
    let g = fx_mul(f, FX_LN2);
    proof {
        lemma_fx_mul_nonneg(f as int, FX_LN2 as int);
        lemma_exp_series_nonneg(g as int);
    }
    fx_add(
        FX_ONE,
        fx_mul(
            g,
            fx_add(
                FX_ONE,
                fx_mul(
                    g,
                    fx_add(
                        INV2,
                        fx_mul(
                            g,
                            fx_add(
                                INV6,
                                fx_mul(
                                    g,
                                    fx_add(
                                        INV24,
                                        fx_mul(
                                            g,
                                            fx_add(INV120, fx_mul(g, fx_add(INV720, fx_mul(g, INV5040)))),
                                        ),
                                    ),
                                ),
                            ),
                        ),
                    ),
                ),
            ),
        ),
    )
}

/// Two to the `k`-th power as a machine word.
fn pow2_u64(k: u64) -> (r: u64)
    requires
        k <= 62,
    ensures
        r as nat == pow2(k as nat),
        r >= 1,
{
    let mut r: u64 = 1;
    let mut i: u64 = 0;
    proof {
        lemma2_to64();
    }
    while i < k
        invariant
            i <= k <= 62,
            r as nat == pow2(i as nat),
        decreases k - i,
    {
        proof {
            lemma_pow2_strictly_increases(i as nat, 63);
            lemma2_to64();
            lemma2_to64_rest_local();
        }
        r = r * 2;
        i = i + 1;
        proof {
            vstd::arithmetic::power2::lemma_pow2_unfold(i as nat);
        }
    }
    proof {
        vstd::arithmetic::power2::lemma_pow2_pos(k as nat);
    }
    r
}

proof fn lemma2_to64_rest_local()
    ensures
        pow2(63) == 0x8000000000000000,
{
    vstd::arithmetic::power2::lemma2_to64_rest();
}

/// Two raised to a Q32.32 exponent, Q32.32 result, saturating.
pub fn fx_exp2(y: i64) -> (r: i64)
    ensures
        r as int == fx_exp2_spec(y as int),
{
    proof {
        reveal(fx_exp2_spec);
    }
    if y >= 0 {
        let yu = y as u64;
        let k = yu / 0x1_0000_0000u64;
        let f = (yu % 0x1_0000_0000u64) as i64;
        if k >= 31 {
            return i64::MAX;
        }
        let frac = exp2_frac(f);
        let pw = pow2_u64(k);
        proof {
            lemma_pow2_strictly_increases(k as nat, 31);
            lemma2_to64();
            assert((frac as int) * (pw as int) <= 0x7fff_ffff_ffff_ffff * 0x8000_0000)
                by (nonlinear_arith)
                requires
                    0 <= frac as int <= 0x7fff_ffff_ffff_ffff,
                    0 <= pw as int <= 0x8000_0000,
            ;
        }
        let prod = (frac as u128) * (pw as u128);
        if prod > i64::MAX as u128 {
            i64::MAX
        } else {
            prod as i64
        }
    } else {
        let n = (-(y as i128)) as u128;
        let kq = n / 0x1_0000_0000u128;
        let rem = n % 0x1_0000_0000u128;
        let k: u128 = if rem == 0 {
            kq
        } else {
            kq + 1
        };
        let f: i64 = if rem == 0 {
            0
        } else {
            (0x1_0000_0000u128 - rem) as i64
        };
        if k >= 63 {
            return 0;
        }
        let frac = exp2_frac(f);
        let pw = pow2_u64(k as u64);
        let q = (frac as u64) / pw;
        q as i64
    }
}

/// The exponential of a Q32.32 value, as two to `x * log2 e`.
pub open spec fn fx_exp_spec(x: int) -> int {
    fx_exp2_spec(fx_mul_spec(x, FX_LOG2_E as int))
}

/// The exponential of a Q32.32 value, Q32.32 result, saturating.
pub fn fx_exp(x: i64) -> (r: i64)
    ensures
        r as int == fx_exp_spec(x as int),
{
    fx_exp2(fx_mul(x, FX_LOG2_E))
}

/// Ten raised to a Q32.32 value, as two to `x * log2 10`.
pub open spec fn fx_pow10_spec(x: int) -> int {
    fx_exp2_spec(fx_mul_spec(x, FX_LOG2_10 as int))
}

/// Ten raised to a Q32.32 value, Q32.32 result, saturating.
pub fn fx_pow10(x: i64) -> (r: i64)
    ensures
        r as int == fx_pow10_spec(x as int),
{
    fx_exp2(fx_mul(x, FX_LOG2_10))
}

/// The floor of the base-two logarithm of a positive integer.
pub open spec fn log2_floor(n: int) -> int
    decreases n,
{
    if n < 2 {
        0
    } else {
        1 + log2_floor(n / 2)
    }
}

/// The logarithm series `ln(1 + f) = 2 atanh(f / (2 + f))`, truncated at the
/// seventh power: `2 z (1 + z^2 (1/3 + z^2 (1/5 + z^2 / 7)))`.
pub open spec fn ln1p_series_spec(f: int) -> int {
    let z = fx_div_spec(f, fx_add_spec(2 * FX_ONE as int, f));
    let z2 = fx_mul_spec(z, z);
    let t = fx_mul_spec(
        z,
        fx_add_spec(
            FX_ONE as int,
            fx_mul_spec(
                z2,
                fx_add_spec(
                    INV3 as int,
                    fx_mul_spec(z2, fx_add_spec(INV5 as int, fx_mul_spec(z2, INV7 as int))),
                ),
            ),
        ),
    );
    fx_add_spec(t, t)
}

/// The base-two logarithm of a positive Q32.32 value: the whole part from
/// the leading bit, the fraction from the logarithm series on the mantissa.
#[verifier::opaque]
pub open spec fn fx_log2_spec(v: int) -> int {
    let p = log2_floor(v);
    let m = (v * 0x1_0000_0000) / (pow2(p as nat) as int);
    let f = m - FX_ONE as int;
    fx_add_spec((p - 32) * 0x1_0000_0000, fx_mul_spec(ln1p_series_spec(f), FX_LOG2_E as int))
}

fn ln1p_series(f: i64) -> (r: i64)
    ensures
        r as int == ln1p_series_spec(f as int),
{
    let z = fx_div(f, fx_add(2 * FX_ONE, f));
    let z2 = fx_mul(z, z);
    let t = fx_mul(
        z,
        fx_add(
            FX_ONE,
            fx_mul(z2, fx_add(INV3, fx_mul(z2, fx_add(INV5, fx_mul(z2, INV7))))),
        ),
    );
    fx_add(t, t)
}

/// The base-two logarithm of a positive Q32.32 value, Q32.32 result.
pub fn fx_log2(v: i64) -> (r: i64)
    requires
        v >= 1,
    ensures
        r as int == fx_log2_spec(v as int),
{
    proof {
        reveal(fx_log2_spec);
    }
    let mut w = v as u64;
    let mut p: u64 = 0;
    proof {
        lemma2_to64();
        assert(pow2(0) == 1);
    }
    while w >= 2
        invariant
            v >= 1,
            w >= 1,
            p <= 62,
            log2_floor(v as int) == p + log2_floor(w as int),
            (w as nat) * pow2(p as nat) <= v as nat,
            (v as nat) < ((w + 1) as nat) * pow2(p as nat),
        decreases w,
    {
        proof {
            let wn = w as nat;
            let pn = p as nat;
            let vn = v as nat;
            vstd::arithmetic::power2::lemma_pow2_pos(pn);
            vstd::arithmetic::power2::lemma_pow2_unfold((pn + 1) as nat);
            assert(((wn / 2) as nat) * pow2((pn + 1) as nat) <= wn * pow2(pn) && wn * pow2(pn)
                <= vn && vn < ((wn + 1) as nat) * pow2(pn) && ((wn + 1) as nat) * pow2(pn) <= ((wn
                / 2 + 1) as nat) * pow2((pn + 1) as nat)) by (nonlinear_arith)
                requires
                    wn >= 2,
                    pow2((pn + 1) as nat) == 2 * pow2(pn),
                    pow2(pn) >= 1,
                    wn * pow2(pn) <= vn,
                    vn < (wn + 1) * pow2(pn),
            ;
            if p + 1 > 62 {
                if p + 1 > 63 {
                    lemma_pow2_strictly_increases(63, (p + 1) as nat);
                }
                lemma2_to64_rest_local();
                assert(wn * pow2((pn + 1) as nat) >= pow2((pn + 1) as nat)) by (nonlinear_arith)
                    requires
                        wn >= 1,
                        pow2((pn + 1) as nat) >= 0,
                ;
                assert((wn / 2) as nat >= 1);
                assert(((wn / 2) as nat) * pow2((pn + 1) as nat) >= pow2((pn + 1) as nat))
                    by (nonlinear_arith)
                    requires
                        (wn / 2) as nat >= 1,
                        pow2((pn + 1) as nat) >= 0,
                ;
                assert(pow2((pn + 1) as nat) >= pow2(63));
                assert(v as nat <= 0x7fff_ffff_ffff_ffff as nat);
                assert(false);
            }
        }
        w = w / 2;
        p = p + 1;
    }
    let pw = pow2_u64(p);
    proof {
        assert((v as nat) * 0x1_0000_0000 <= 0x8000_0000_0000_0000_0000_0000 as nat)
            by (nonlinear_arith)
            requires
                v as nat <= 0x8000_0000_0000_0000 as nat,
        ;
        assert((v as nat) * 0x1_0000_0000 < (pw as nat) * 0x2_0000_0000
            && (pw as nat) * 0x1_0000_0000 <= (v as nat) * 0x1_0000_0000) by (nonlinear_arith)
            requires
                (v as nat) < 2 * (pw as nat),
                (pw as nat) <= v as nat,
        ;
        assert(((v as nat) * 0x1_0000_0000) / (pw as nat) < 0x2_0000_0000 as nat
            && 0x1_0000_0000 as nat <= ((v as nat) * 0x1_0000_0000) / (pw as nat))
            by (nonlinear_arith)
            requires
                pw as nat >= 1,
                (v as nat) * 0x1_0000_0000 < (pw as nat) * 0x2_0000_0000,
                (pw as nat) * 0x1_0000_0000 <= (v as nat) * 0x1_0000_0000,
        ;
    }
    let m = ((v as u128) * 0x1_0000_0000u128) / (pw as u128);
    let f = (m as i64) - FX_ONE;
    let frac = fx_mul(ln1p_series(f), FX_LOG2_E);
    fx_add((p as i64 - 32) * FX_ONE, frac)
}

/// The decibel value of a positive Q32.32 amplitude:
/// `20 log10 v = log2 v * (20 log10 2)`.
pub open spec fn fx_db_spec(v: int) -> int {
    fx_mul_spec(fx_log2_spec(v), FX_DB_PER_LOG2 as int)
}

/// The decibel value of a positive Q32.32 amplitude, Q32.32 result.
pub fn fx_db(v: i64) -> (r: i64)
    requires
        v >= 1,
    ensures
        r as int == fx_db_spec(v as int),
{
    fx_mul(fx_log2(v), FX_DB_PER_LOG2)
}

} // verus!
