//! Converts caller-supplied durations into cycle counts.
//!
//! All arithmetic is done in the unsigned 64-bit domain. Fractional cycles
//! are truncated, never rounded up, and a negative signed duration is
//! clamped to zero before conversion.

use vstd::prelude::*;
use vstd::arithmetic::div_mod::lemma_div_is_ordered;
use vstd::arithmetic::mul::lemma_mul_inequality;

verus! {

/// Microseconds in one second: the divisor of the microsecond formula.
pub const MICROS_PER_SEC: u64 = 1_000_000;

/// Milliseconds in one second: the divisor of the millisecond formula.
pub const MILLIS_PER_SEC: u64 = 1_000;

/// Cycles needed for `us` microseconds at `freq` Hz: floor(us * freq / 1_000_000).
pub open spec fn us_cycles(freq: u32, us: u64) -> int {
    (us * freq) / (MICROS_PER_SEC as int)
}

/// Cycles needed for `ms` milliseconds at `freq` Hz: floor(ms * freq / 1_000).
pub open spec fn ms_cycles(freq: u32, ms: u64) -> int {
    (ms * freq) / (MILLIS_PER_SEC as int)
}

/// A negative duration means "no delay": below zero, a duration counts as zero.
pub open spec fn clamped(d: int) -> int {
    if d < 0 {
        0
    } else {
        d
    }
}

/// Converts a duration in microseconds into a whole number of cycles at the
/// clock frequency `freq` in Hz, truncating fractional cycles.
pub fn us_to_cycles(freq: u32, us: u64) -> (r: u64)
    requires
        us * freq <= u64::MAX,
    ensures
        r == us_cycles(freq, us),
{
    (us * (freq as u64)) / MICROS_PER_SEC
}

/// Converts a duration in milliseconds into a whole number of cycles at the
/// clock frequency `freq` in Hz, truncating fractional cycles.
pub fn ms_to_cycles(freq: u32, ms: u64) -> (r: u64)
    requires
        ms * freq <= u64::MAX,
    ensures
        r == ms_cycles(freq, ms),
{
    (ms * (freq as u64)) / MILLIS_PER_SEC
}

/// Clamps a signed duration to its non-negative magnitude: a negative value
/// becomes zero, a non-negative one is kept.
pub fn clamp_duration(d: i64) -> (r: u64)
    ensures
        r == clamped(d as int),
{
    if d < 0 {
        0
    } else {
        d as u64
    }
}

/// The product of two 32-bit magnitudes always fits in 64 bits, so the
/// conversion arithmetic cannot overflow for such inputs.
pub proof fn lemma_u32_product_fits(a: int, b: int)
    requires
        0 <= a <= u32::MAX,
        0 <= b <= u32::MAX,
    ensures
        a * b <= u64::MAX,
{
    assert(a * b <= u64::MAX) by (nonlinear_arith)
        requires
            0 <= a <= u32::MAX,
            0 <= b <= u32::MAX,
    ;
}

/// At a fixed frequency a longer duration never needs fewer cycles: both
/// conversion formulas are monotone in the duration.
pub proof fn lemma_cycles_monotonic(freq: u32, d1: u64, d2: u64)
    requires
        d1 <= d2,
    ensures
        us_cycles(freq, d1) <= us_cycles(freq, d2),
        ms_cycles(freq, d1) <= ms_cycles(freq, d2),
{
    lemma_mul_inequality(d1 as int, d2 as int, freq as int);
    lemma_div_is_ordered(d1 * freq, d2 * freq, MICROS_PER_SEC as int);
    lemma_div_is_ordered(d1 * freq, d2 * freq, MILLIS_PER_SEC as int);
}

/// A negative signed duration converts to zero cycles, exactly as a zero
/// duration does, under both formulas.
pub proof fn lemma_negative_duration_no_cycles(freq: u32, d: i64)
    requires
        d < 0,
    ensures
        us_cycles(freq, clamped(d as int) as u64) == 0,
        us_cycles(freq, clamped(d as int) as u64) == us_cycles(freq, 0),
        ms_cycles(freq, clamped(d as int) as u64) == 0,
        ms_cycles(freq, clamped(d as int) as u64) == ms_cycles(freq, 0),
{
    assert(us_cycles(freq, 0u64) == 0);
    assert(ms_cycles(freq, 0u64) == 0);
}

} // verus!
