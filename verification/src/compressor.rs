//! Dynamic-range compression.
//!
//! A one-pole envelope follower with distinct attack and release smoothing
//! tracks the per-sample level; above the threshold, gain is reduced along
//! the ratio's slope in decibel terms, and a makeup gain is applied on top.
//! The envelope starts at zero on every call.

use crate::errors::EngineError;
use crate::fixed::{fx_abs, fx_add, fx_div, fx_mul, fx_sub, FX_ONE};
use crate::fixed::{fx_abs_spec, fx_add_spec, fx_div_spec, fx_mul_spec, fx_sub_spec};
use crate::transcend::{fx_db, fx_exp, fx_pow10};
use crate::transcend::{fx_db_spec, fx_exp_spec, fx_pow10_spec};
use vstd::prelude::*;

verus! {

/// Compressor configuration: threshold and makeup gain in Q32.32 decibels,
/// ratio as a Q32.32 factor of at least one, attack and release time
/// constants in Q32.32 seconds.
#[derive(Clone, Copy, Debug, PartialEq, Eq, Structural)]
pub struct CompressorSettings {
    pub threshold: i64,
    pub ratio: i64,
    pub attack: i64,
    pub release: i64,
    pub makeup_gain: i64,
}

/// Whether the configuration is numerically valid: a ratio of at least
/// one and strictly positive time constants.
pub open spec fn compressor_params_valid(s: CompressorSettings) -> bool {
    s.ratio as int >= FX_ONE as int && s.attack > 0 && s.release > 0
}

/// The smoothing coefficient `exp(-1 / (time * sample_rate))`.
pub open spec fn smoothing_coefficient_spec(time: int, sample_rate: int) -> int {
    fx_exp_spec(
        fx_div_spec(-(FX_ONE as int), fx_mul_spec(time, sample_rate * FX_ONE as int)),
    )
}

/// One compression step: the output sample and the next envelope value.
///
/// The envelope follows the rectified level with the attack coefficient
/// while rising and the release coefficient while falling. When the
/// envelope's decibel value exceeds the threshold, the reduction is the
/// ratio slope times the excess; the final linear gain combines the
/// reduction and the makeup gain.
pub open spec fn compressor_step(
    s: CompressorSettings,
    attack_coefficient: int,
    release_coefficient: int,
    envelope: int,
    x: int,
) -> (int, int) {
    let level = fx_abs_spec(x);
    let coefficient = if level > envelope {
        attack_coefficient
    } else {
        release_coefficient
    };
    let next_envelope = fx_add_spec(fx_mul_spec(coefficient, fx_sub_spec(envelope, level)), level);
    let reduction = if next_envelope >= 1 && fx_db_spec(next_envelope) > s.threshold as int {
        let slope = fx_sub_spec(FX_ONE as int, fx_div_spec(FX_ONE as int, s.ratio as int));
        fx_mul_spec(slope, fx_sub_spec(fx_db_spec(next_envelope), s.threshold as int))
    } else {
        0
    };
    let gain = fx_mul_spec(
        fx_pow10_spec(fx_div_spec(fx_sub_spec(0, reduction), 20 * FX_ONE as int)),
        fx_pow10_spec(fx_div_spec(s.makeup_gain as int, 20 * FX_ONE as int)),
    );
    (fx_mul_spec(x, gain), next_envelope)
}

/// The envelope after compressing a whole input sequence from zero.
pub open spec fn compressor_envelope_after(
    s: CompressorSettings,
    attack_coefficient: int,
    release_coefficient: int,
    input: Seq<i64>,
) -> int
    decreases input.len(),
{
    if input.len() == 0 {
        0
    } else {
        compressor_step(
            s,
            attack_coefficient,
            release_coefficient,
            compressor_envelope_after(s, attack_coefficient, release_coefficient, input.drop_last()),
            input.last() as int,
        ).1
    }
}

/// The compressed sample at position `j` of the input.
pub open spec fn compressed_at(
    s: CompressorSettings,
    attack_coefficient: int,
    release_coefficient: int,
    input: Seq<i64>,
    j: int,
) -> int {
    compressor_step(
        s,
        attack_coefficient,
        release_coefficient,
        compressor_envelope_after(s, attack_coefficient, release_coefficient, input.take(j)),
        input[j] as int,
    ).0
}

/// Applies the compressor to the buffer in place. Invalid configuration is
/// rejected with the buffer unchanged; otherwise every sample is replaced
/// by its compressed value, the envelope starting at zero.
pub fn apply_compression_core(
    buffer: &mut Vec<i64>,
    settings: &CompressorSettings,
    sample_rate: usize,
) -> (r: Result<(), EngineError>)
    requires
        1 <= sample_rate <= 1_000_000,
    ensures
        r is Ok <==> compressor_params_valid(*settings),
        r is Err ==> r == Err::<(), EngineError>(EngineError::InvalidParameter) && final(buffer)@
            == old(buffer)@,
        r is Ok ==> final(buffer)@.len() == old(buffer)@.len() && (forall|j: int|
            0 <= j < old(buffer)@.len() ==> final(buffer)@[j] as int == compressed_at(
                *settings,
                smoothing_coefficient_spec(settings.attack as int, sample_rate as int),
                smoothing_coefficient_spec(settings.release as int, sample_rate as int),
                old(buffer)@,
                j,
            )),
        r is Ok && settings.ratio == FX_ONE && settings.makeup_gain == 0 ==> final(buffer)@ == old(
            buffer,
        )@,
{
    if settings.ratio < FX_ONE || settings.attack <= 0 || settings.release <= 0 {
        return Err(EngineError::InvalidParameter);
    }
    let sr_fx = (sample_rate as i64) * FX_ONE;
    let attack_coefficient = fx_exp(fx_div(-FX_ONE, fx_mul(settings.attack, sr_fx)));
    let release_coefficient = fx_exp(fx_div(-FX_ONE, fx_mul(settings.release, sr_fx)));
    let makeup_factor = fx_pow10(fx_div(settings.makeup_gain, 20 * FX_ONE));
    let slope = fx_sub(FX_ONE, fx_div(FX_ONE, settings.ratio));
    let ghost input = buffer@;
    let ghost ac = attack_coefficient as int;
    let ghost rc = release_coefficient as int;
    let mut envelope: i64 = 0;
    let n = buffer.len();
    let mut i: usize = 0;
    while i < n
        invariant
            n == input.len(),
            buffer@.len() == n,
            0 <= i <= n,
            1 <= sample_rate <= 1_000_000,
            compressor_params_valid(*settings),
            ac == attack_coefficient as int,
            rc == release_coefficient as int,
            ac == smoothing_coefficient_spec(settings.attack as int, sample_rate as int),
            rc == smoothing_coefficient_spec(settings.release as int, sample_rate as int),
            slope as int == fx_sub_spec(
                FX_ONE as int,
                fx_div_spec(FX_ONE as int, settings.ratio as int),
            ),
            makeup_factor as int == fx_pow10_spec(
                fx_div_spec(settings.makeup_gain as int, 20 * FX_ONE as int),
            ),
            envelope as int == compressor_envelope_after(*settings, ac, rc, input.take(i as int)),
            forall|j: int| i <= j < n ==> buffer@[j] == input[j],
            forall|j: int|
                0 <= j < i ==> buffer@[j] as int == compressed_at(*settings, ac, rc, input, j),
        decreases n - i,
    {
        let x = buffer[i];
        let level = fx_abs(x);
        let coefficient = if level > envelope {
            attack_coefficient
        } else {
            release_coefficient
        };
        envelope = fx_add(fx_mul(coefficient, fx_sub(envelope, level)), level);
        let reduction = if envelope >= 1 {
            let envelope_db = fx_db(envelope);
            if envelope_db > settings.threshold {
                fx_mul(slope, fx_sub(envelope_db, settings.threshold))
            } else {
                0
            }
        } else {
            0
        };
        let gain = fx_mul(fx_pow10(fx_div(fx_sub(0, reduction), 20 * FX_ONE)), makeup_factor);
        let out = fx_mul(x, gain);
        proof {
            assert(input.take(i + 1).drop_last() =~= input.take(i as int));
            assert(input.take(i + 1).last() == input[i as int]);
            let t = i as int;
            let step = compressor_step(
                *settings,
                ac,
                rc,
                compressor_envelope_after(*settings, ac, rc, input.take(t)),
                input[t] as int,
            );
            assert(envelope as int == step.1);
            assert(out as int == step.0);
            assert(out as int == compressed_at(*settings, ac, rc, input, t));
            assert(envelope as int == compressor_envelope_after(
                *settings,
                ac,
                rc,
                input.take(t + 1),
            ));
        }
        buffer.set(i, out);
        i = i + 1;
    }
    proof {
        if settings.ratio == FX_ONE && settings.makeup_gain == 0 {
            assert forall|j: int| 0 <= j < input.len() implies buffer@[j] == input[j] by {
                lemma_compressor_unity_identity(*settings, ac, rc, input, j);
            }
            assert(buffer@ =~= input);
        }
    }
    Ok(())
}

/// Law: a compressor with unity ratio and zero makeup gain is a no-op;
/// every sample of every input comes out unchanged, whatever the envelope
/// coefficients, threshold, and input.
pub proof fn lemma_compressor_unity_identity(
    s: CompressorSettings,
    attack_coefficient: int,
    release_coefficient: int,
    input: Seq<i64>,
    j: int,
)
    requires
        s.ratio == FX_ONE,
        s.makeup_gain == 0,
        0 <= j < input.len(),
    ensures
        compressed_at(s, attack_coefficient, release_coefficient, input, j) == input[j] as int,
{
    let env = compressor_envelope_after(s, attack_coefficient, release_coefficient, input.take(j));
    let x = input[j] as int;
    let step = compressor_step(s, attack_coefficient, release_coefficient, env, x);
    assert(forall|b: int| fx_mul_spec(0, b) == 0);
    assert(FX_ONE as int * 0x1_0000_0000 == 0x1_0000_0000 * (FX_ONE as int)) by (nonlinear_arith);
    vstd::arithmetic::div_mod::lemma_div_multiples_vanish(FX_ONE as int, 0x1_0000_0000);
    assert(fx_div_spec(FX_ONE as int, FX_ONE as int) == FX_ONE as int);
    let slope = fx_sub_spec(FX_ONE as int, fx_div_spec(FX_ONE as int, s.ratio as int));
    assert(slope == 0);
    lemma_pow10_zero();
    assert(fx_div_spec(0, 20 * FX_ONE as int) == 0);
    let gain = fx_mul_spec(
        fx_pow10_spec(fx_div_spec(fx_sub_spec(0, 0), 20 * FX_ONE as int)),
        fx_pow10_spec(fx_div_spec(0, 20 * FX_ONE as int)),
    );
    assert(gain == fx_mul_spec(FX_ONE as int, FX_ONE as int));
    assert(gain == FX_ONE as int);
    lemma_fx_mul_one(x);
}

/// Ten to the zeroth power is exactly one in Q32.32.
proof fn lemma_pow10_zero()
    ensures
        fx_pow10_spec(0) == FX_ONE as int,
{
    reveal(crate::transcend::fx_exp2_spec);
    assert(forall|b: int| fx_mul_spec(0, b) == 0);
    assert(crate::transcend::exp_series_spec(0) == FX_ONE as int);
    assert(vstd::arithmetic::power2::pow2(0) == 1) by {
        vstd::arithmetic::power2::lemma2_to64();
    }
    assert(crate::transcend::fx_exp2_spec(0) == FX_ONE as int);
}

/// Multiplying an `i64` value by one in Q32.32 gives the value back.
proof fn lemma_fx_mul_one(x: int)
    requires
        i64::MIN as int <= x <= i64::MAX as int,
    ensures
        fx_mul_spec(x, FX_ONE as int) == x,
{
    if x >= 0 {
        assert(x * 0x1_0000_0000 == 0x1_0000_0000 * x) by (nonlinear_arith);
        vstd::arithmetic::div_mod::lemma_div_multiples_vanish(x, 0x1_0000_0000);
    } else {
        assert(x * 0x1_0000_0000 < 0) by (nonlinear_arith)
            requires
                x < 0,
        ;
        assert((-(x * 0x1_0000_0000)) == 0x1_0000_0000 * (-x)) by (nonlinear_arith);
        vstd::arithmetic::div_mod::lemma_div_multiples_vanish(-x, 0x1_0000_0000);
    }
}

} // verus!
