//! Angle decoding: raw Hall-effect sensor samples to calibrated
//! fixed-point angles in millidegrees.
//!
//! Two decoding modes exist. *Reference mode* wraps the signed distance of
//! a sample from a reference sample into the sensor span and scales it
//! linearly onto `[0, 360)` degrees. *Two-point mode* maps a sample through
//! the affine line defined by two calibration points, with no wraparound.

use vstd::arithmetic::div_mod::{
    lemma_div_multiples_vanish, lemma_div_nonincreasing, lemma_div_of0, lemma_div_pos_is_pos,
    lemma_fundamental_div_mod, lemma_mod_bound, lemma_mod_multiples_vanish,
    lemma_multiply_divide_lt, lemma_small_mod,
};
use vstd::arithmetic::mul::{lemma_mul_is_commutative, lemma_mul_strict_inequality};
use vstd::prelude::*;

verus! {

/// Number of millidegrees in one full turn.
pub const MILLIDEG_PER_TURN: i64 = 360_000;

/// Decoding failure: the sensor range or the calibration pair cannot
/// define an angle mapping.
#[derive(Clone, Copy, PartialEq, Eq, Structural, Debug)]
pub enum DomainError {
    /// The sample range holds at most one distinct value (span <= 1).
    EmptySpan,
    /// The two calibration points share the same sample value.
    EqualCalibrationSamples,
}

/// One point of a two-point calibration: a raw sample paired with the
/// angle it stands for.
#[derive(Clone, Copy, PartialEq, Eq, Structural, Debug)]
pub struct CalibrationPoint {
    pub sample: u16,
    pub angle_millideg: i64,
}

impl CalibrationPoint {
    /// A calibration angle is a normalized angle in `[0, 360)` degrees.
    pub open spec fn wf(self) -> bool {
        0 <= self.angle_millideg < MILLIDEG_PER_TURN
    }
}

/// Number of distinct sample values in the sensor range (both ends inclusive).
pub open spec fn spec_span(adc_min: u16, adc_max: u16) -> int {
    adc_max - adc_min + 1
}

/// Reference-mode decoding: the signed distance of the sample from the
/// reference, wrapped into `[0, span)`, then scaled linearly so that a full
/// span covers a full turn. The reference sample itself decodes to 0.
pub open spec fn spec_decode_reference(
    adc_min: u16,
    adc_max: u16,
    sample: u16,
    reference: u16,
) -> int {
    let span = spec_span(adc_min, adc_max);
    ((sample - reference) % span) * MILLIDEG_PER_TURN / span
}

/// The affine line through calibration points `a` and `b`, evaluated at
/// `sample`; requires `a.sample < b.sample` to be meaningful.
pub open spec fn spec_affine(a: CalibrationPoint, b: CalibrationPoint, sample: u16) -> int {
    a.angle_millideg + (b.angle_millideg - a.angle_millideg) * (sample - a.sample) / (b.sample
        - a.sample)
}

/// Two-point decoding: the affine map through the two calibration points,
/// oriented so that the interpolation denominator is positive. There is no
/// wraparound: samples outside the calibration pair extrapolate.
pub open spec fn spec_decode_two_point(
    low: CalibrationPoint,
    high: CalibrationPoint,
    sample: u16,
) -> int {
    if low.sample < high.sample {
        spec_affine(low, high, sample)
    } else {
        spec_affine(high, low, sample)
    }
}

/// Largest magnitude a two-point decoded angle can reach: one turn for the
/// base angle plus the extrapolation term bounded by one turn per sample step.
pub const DECODED_ANGLE_LIMIT: i64 = 30_000_000_000;

/// Decodes a raw sensor sample in reference mode.
///
/// Fails with `DomainError::EmptySpan` exactly when the sample range holds
/// fewer than two distinct values; otherwise returns the calibrated angle
/// in millidegrees, always in `[0, 360)` degrees.
pub fn calculate_degrees(adc_min: u16, adc_max: u16, adc_value: u16, adc_reference: u16) -> (r:
    Result<i64, DomainError>)
    ensures
        r is Ok <==> adc_min < adc_max,
        r matches Ok(a) ==> a == spec_decode_reference(adc_min, adc_max, adc_value, adc_reference),
        r matches Err(e) ==> e == DomainError::EmptySpan,
{
    if adc_min >= adc_max {
        return Err(DomainError::EmptySpan);
    }
    let span: i64 = adc_max as i64 - adc_min as i64 + 1;
    let diff: i64 = adc_value as i64 - adc_reference as i64;
    proof {
        lemma_mod_bound(diff as int, span as int);
    }
    let offset: i64 = diff.checked_rem_euclid(span).unwrap();
    proof {
        lemma_div_pos_is_pos(offset * MILLIDEG_PER_TURN, span as int);
        lemma_div_nonincreasing(offset * MILLIDEG_PER_TURN, span as int);
    }
    let millideg: i64 = (offset * MILLIDEG_PER_TURN).checked_div_euclid(span).unwrap();
    Ok(millideg)
}

/// Decodes a raw sensor sample in two-point calibration mode.
///
/// Fails with `DomainError::EqualCalibrationSamples` exactly when the two
/// calibration samples coincide; otherwise returns the affine image of the
/// sample in millidegrees.
pub fn decode_two_point(low: CalibrationPoint, high: CalibrationPoint, sample: u16) -> (r: Result<
    i64,
    DomainError,
>)
    requires
        low.wf(),
        high.wf(),
    ensures
        r is Ok <==> low.sample != high.sample,
        r matches Ok(a) ==> a == spec_decode_two_point(low, high, sample),
        r matches Ok(a) ==> -DECODED_ANGLE_LIMIT < a < DECODED_ANGLE_LIMIT,
        r matches Err(e) ==> e == DomainError::EqualCalibrationSamples,
{
    if low.sample == high.sample {
        return Err(DomainError::EqualCalibrationSamples);
    }
    let (a, b) = if low.sample < high.sample {
        (low, high)
    } else {
        (high, low)
    };
    let den: i64 = b.sample as i64 - a.sample as i64;
    proof {
        let dy = b.angle_millideg - a.angle_millideg;
        let dx = sample - a.sample;
        assert(-(360_000int * 65_535int) <= dy * dx <= 360_000int * 65_535int) by (nonlinear_arith)
            requires
                -360_000 < dy < 360_000,
                -65_535 <= dx <= 65_535,
        ;
    }
    let num: i64 = (b.angle_millideg - a.angle_millideg) * (sample as i64 - a.sample as i64);
    proof {
        lemma_div_bound_signed(num as int, den as int, 360_000int * 65_535int);
    }
    let q: i64 = num.checked_div_euclid(den).unwrap();
    Ok(a.angle_millideg + q)
}

/// Bound on a Euclidean quotient with a positive divisor: dividing a value
/// of magnitude at most `b` cannot grow its magnitude past `b + 1`.
proof fn lemma_div_bound_signed(x: int, d: int, b: int)
    requires
        0 < d,
        0 <= b,
        -b <= x <= b,
    ensures
        -b - 1 <= x / d <= b,
{
    lemma_fundamental_div_mod(x, d);
    lemma_mod_bound(x, d);
    let q = x / d;
    let r = x % d;
    assert(-b - 1 <= q <= b) by (nonlinear_arith)
        requires
            x == d * q + r,
            0 <= r < d,
            -b <= x <= b,
            0 <= b,
    ;
}

/// Reference-mode decoding always lands in `[0, 360)` degrees, and the
/// reference sample itself decodes to exactly 0.
pub proof fn lemma_decode_reference_range(adc_min: u16, adc_max: u16, sample: u16, reference: u16)
    requires
        adc_min < adc_max,
    ensures
        0 <= spec_decode_reference(adc_min, adc_max, sample, reference) < MILLIDEG_PER_TURN,
        sample == reference ==> spec_decode_reference(adc_min, adc_max, sample, reference) == 0,
{
    let span = spec_span(adc_min, adc_max);
    let m = (sample - reference) % span;
    lemma_mod_bound(sample - reference, span);
    lemma_div_pos_is_pos(m * MILLIDEG_PER_TURN, span);
    assert(m * MILLIDEG_PER_TURN < span * MILLIDEG_PER_TURN) by {
        lemma_mul_strict_inequality(m, span, MILLIDEG_PER_TURN as int);
        lemma_mul_is_commutative(m, MILLIDEG_PER_TURN as int);
        lemma_mul_is_commutative(span, MILLIDEG_PER_TURN as int);
    }
    assert(span * MILLIDEG_PER_TURN == span * (MILLIDEG_PER_TURN as int));
    lemma_multiply_divide_lt(m * MILLIDEG_PER_TURN, span, MILLIDEG_PER_TURN as int);
    if sample == reference {
        lemma_small_mod(0nat, span as nat);
        lemma_div_of0(span);
    }
}

/// Reference-mode decoding is periodic in the sample with period equal to
/// the span: two samples at the same offset from the reference, modulo the
/// span, decode to the same angle.
pub proof fn lemma_decode_reference_periodic(
    adc_min: u16,
    adc_max: u16,
    s1: u16,
    s2: u16,
    reference: u16,
)
    requires
        adc_min < adc_max,
        (s1 - s2) % spec_span(adc_min, adc_max) == 0,
    ensures
        spec_decode_reference(adc_min, adc_max, s1, reference) == spec_decode_reference(
            adc_min,
            adc_max,
            s2,
            reference,
        ),
{
    let span = spec_span(adc_min, adc_max);
    lemma_fundamental_div_mod(s1 - s2, span);
    let k = (s1 - s2) / span;
    assert(s1 - s2 == span * k);
    lemma_mod_multiples_vanish(k, s2 - reference, span);
    assert(s1 - reference == span * k + (s2 - reference));
    assert((s1 - reference) % span == (s2 - reference) % span);
}

/// The largest wrapped offset — one sample below the reference, after
/// wraparound — decodes to just under a full turn: within one sample's
/// worth of millidegrees below 360 degrees, approaching it as the span
/// grows, and never reaching it.
pub proof fn lemma_decode_reference_wraparound(
    adc_min: u16,
    adc_max: u16,
    sample: u16,
    reference: u16,
)
    requires
        adc_min < adc_max,
        (sample - reference) % spec_span(adc_min, adc_max) == spec_span(adc_min, adc_max) - 1,
    ensures
        MILLIDEG_PER_TURN - MILLIDEG_PER_TURN as int / spec_span(adc_min, adc_max) - 1
            <= spec_decode_reference(adc_min, adc_max, sample, reference) < MILLIDEG_PER_TURN,
{
    let span = spec_span(adc_min, adc_max);
    lemma_decode_reference_range(adc_min, adc_max, sample, reference);
    let x = (span - 1) * MILLIDEG_PER_TURN;
    lemma_fundamental_div_mod(x, span);
    lemma_mod_bound(x, span);
    let q = x / span;
    let r = x % span;
    lemma_fundamental_div_mod(MILLIDEG_PER_TURN as int, span);
    lemma_mod_bound(MILLIDEG_PER_TURN as int, span);
    let t = MILLIDEG_PER_TURN as int / span;
    let u = MILLIDEG_PER_TURN as int % span;
    assert(q >= MILLIDEG_PER_TURN - t - 1) by (nonlinear_arith)
        requires
            x == span * q + r,
            0 <= r < span,
            x == (span - 1) * 360_000,
            360_000int == span * t + u,
            0 <= u < span,
            2 <= span,
            t == 360_000int / span,
            q == x / span,
    ;
}

/// Two-point calibration is exact at both calibration samples.
pub proof fn lemma_two_point_exact(low: CalibrationPoint, high: CalibrationPoint)
    requires
        low.sample != high.sample,
    ensures
        spec_decode_two_point(low, high, low.sample) == low.angle_millideg,
        spec_decode_two_point(low, high, high.sample) == high.angle_millideg,
{
    if low.sample < high.sample {
        lemma_affine_exact(low, high);
    } else {
        lemma_affine_exact(high, low);
    }
}

/// The affine line through two calibration points passes through both.
proof fn lemma_affine_exact(a: CalibrationPoint, b: CalibrationPoint)
    requires
        a.sample < b.sample,
    ensures
        spec_affine(a, b, a.sample) == a.angle_millideg,
        spec_affine(a, b, b.sample) == b.angle_millideg,
{
    let den = b.sample - a.sample;
    let dy = b.angle_millideg - a.angle_millideg;
    lemma_div_of0(den);
    assert(dy * (b.sample - b.sample) == 0);
    lemma_mul_is_commutative(dy, den);
    lemma_div_multiples_vanish(dy, den);
}

} // verus!
