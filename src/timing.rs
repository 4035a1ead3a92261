//! Prescale-dependent timing constants and the angle-to-tick formula.
//!
//! With a 16 MHz clock and a 50 Hz PWM period, a servo pulse of 0.5 ms to
//! 2.5 ms spans the following counter values:
//!
//! * prescale 64 (250 kHz): TOP = 4999, 0.5 ms = 124, 2.5 ms = 624;
//! * prescale 8 (2 MHz): TOP = 39999, 0.5 ms = 999, 2.5 ms = 4999.

use vstd::prelude::*;

verus! {

/// Clock select bits for prescale 8.
pub const CS_8: u8 = 0b010;

/// Clock select bits for prescale 64.
pub const CS_64: u8 = 0b011;

/// Counter value at 0.5 ms for prescale 8.
pub const PRESCALE8_SERVO_MIN: u16 = 999;

/// Counter value at 2.5 ms for prescale 8.
pub const PRESCALE8_SERVO_MAX: u16 = 4999;

/// Counter value at 20 ms for prescale 8.
pub const PRESCALE8_PWM_TOP: u16 = 39999;

/// Counter value at 0.5 ms for prescale 64.
pub const PRESCALE64_SERVO_MIN: u16 = 124;

/// Counter value at 2.5 ms for prescale 64.
pub const PRESCALE64_SERVO_MAX: u16 = 624;

/// Counter value at 20 ms for prescale 64.
pub const PRESCALE64_PWM_TOP: u16 = 4999;

/// Modes of operation available for a servo.
///
/// Fast mode uses prescale 64, a slower clock (250 kHz) and a resolution of
/// 0.36 degrees per tick. Precise mode uses prescale 8, a faster clock
/// (2 MHz) and a resolution of 0.045 degrees per tick.
#[derive(Clone, Copy, Debug, PartialEq, Eq, Structural)]
pub enum ServoMode {
    /// Faster movement at the cost of precision.
    Fast,
    /// More precise movement at the cost of speed.
    Precise,
}

/// One row of the timing table.
#[derive(Clone, Copy, Debug, PartialEq, Eq, Structural)]
pub struct TimingEntry {
    /// Clock select bits (CSn2:0) of the prescaler.
    pub clock_select: u8,
    /// Counter value that ends one PWM period (written to ICRn).
    pub period_top: u16,
    /// Duty at 0 degrees.
    pub duty_min: u16,
    /// Duty at 180 degrees.
    pub duty_max: u16,
}

/// The timing table.
pub open spec fn timing_spec(mode: ServoMode) -> TimingEntry {
    match mode {
        ServoMode::Fast => TimingEntry {
            clock_select: CS_64,
            period_top: PRESCALE64_PWM_TOP,
            duty_min: PRESCALE64_SERVO_MIN,
            duty_max: PRESCALE64_SERVO_MAX,
        },
        ServoMode::Precise => TimingEntry {
            clock_select: CS_8,
            period_top: PRESCALE8_PWM_TOP,
            duty_min: PRESCALE8_SERVO_MIN,
            duty_max: PRESCALE8_SERVO_MAX,
        },
    }
}

/// The duty value for an angle: `min + (max - min) * degrees / 180`, with
/// floor division. No clamping: angles above 180 extrapolate past `max`.
pub open spec fn ticks(mode: ServoMode, degrees: int) -> int {
    let e = timing_spec(mode);
    e.duty_min + (e.duty_max - e.duty_min) * degrees / 180
}

/// Looks up the timing entry of a mode.
pub fn timing(mode: ServoMode) -> (r: TimingEntry)
    ensures
        r == timing_spec(mode),
        r.duty_min < r.duty_max < r.period_top,
{
    match mode {
        ServoMode::Fast => TimingEntry {
            clock_select: CS_64,
            period_top: PRESCALE64_PWM_TOP,
            duty_min: PRESCALE64_SERVO_MIN,
            duty_max: PRESCALE64_SERVO_MAX,
        },
        ServoMode::Precise => TimingEntry {
            clock_select: CS_8,
            period_top: PRESCALE8_PWM_TOP,
            duty_min: PRESCALE8_SERVO_MIN,
            duty_max: PRESCALE8_SERVO_MAX,
        },
    }
}

/// Computes the duty value for an angle in the given mode.
///
/// The product is formed in 32 bits, and every `u8` angle, 255 included,
/// gives a value that fits in 16 bits.
pub fn rotation_ticks(mode: ServoMode, degrees: u8) -> (r: u16)
    ensures
        r as int == ticks(mode, degrees as int),
{
    let e = timing(mode);
    let pwm_min = e.duty_min as u32;
    let range = e.duty_max as u32 - pwm_min;
    assert(range * (degrees as u32) <= 4000 * 255) by (nonlinear_arith)
        requires
            range <= 4000,
            degrees <= 255,
    ;
    let scaled = range * degrees as u32 / 180;
    assert(scaled <= 5667);
    (pwm_min + scaled) as u16
}

/// Every angle from 0 to 180 degrees gives a duty between the mode's
/// minimum and maximum.
pub proof fn lemma_ticks_within_bounds(mode: ServoMode, degrees: int)
    requires
        0 <= degrees <= 180,
    ensures
        timing_spec(mode).duty_min <= ticks(mode, degrees) <= timing_spec(mode).duty_max,
{
    let e = timing_spec(mode);
    let range = e.duty_max - e.duty_min;
    assert(0 <= range * degrees / 180 <= range) by (nonlinear_arith)
        requires
            0 <= range,
            0 <= degrees <= 180,
    ;
}

/// 0 degrees gives exactly the mode's minimum duty, and 180 degrees exactly
/// its maximum.
pub proof fn lemma_ticks_endpoints(mode: ServoMode)
    ensures
        ticks(mode, 0) == timing_spec(mode).duty_min,
        ticks(mode, 180) == timing_spec(mode).duty_max,
{
}

/// The duty never decreases as the angle grows.
pub proof fn lemma_ticks_monotonic(mode: ServoMode, d1: int, d2: int)
    requires
        0 <= d1 < d2 <= 180,
    ensures
        ticks(mode, d1) <= ticks(mode, d2),
{
    let e = timing_spec(mode);
    let range = e.duty_max - e.duty_min;
    assert(range * d1 / 180 <= range * d2 / 180) by (nonlinear_arith)
        requires
            0 <= range,
            0 <= d1 < d2,
    ;
}

/// Angles past 180 degrees are not clamped: they extrapolate past the
/// maximum duty and still fit in 16 bits, up to the largest `u8` angle.
pub proof fn lemma_ticks_extrapolate(mode: ServoMode, degrees: int)
    requires
        180 < degrees <= 255,
    ensures
        timing_spec(mode).duty_max < ticks(mode, degrees) < 0x10000,
{
    let e = timing_spec(mode);
    let range = e.duty_max - e.duty_min;
    assert(range < range * degrees / 180 <= range * 255 / 180) by (nonlinear_arith)
        requires
            180 <= range <= 4000,
            180 < degrees <= 255,
    ;
}

/// The two modes never give the same duty: every `u8` angle in fast mode
/// gives less than any `u8` angle in precise mode.
pub proof fn lemma_modes_disjoint(fast_degrees: int, precise_degrees: int)
    requires
        0 <= fast_degrees <= 255,
        0 <= precise_degrees <= 255,
    ensures
        ticks(ServoMode::Fast, fast_degrees) < ticks(ServoMode::Precise, precise_degrees),
{
    assert(500 * fast_degrees / 180 <= 500 * 255 / 180) by (nonlinear_arith)
        requires
            0 <= fast_degrees <= 255,
    ;
    assert(0 <= 4000 * precise_degrees / 180) by (nonlinear_arith)
        requires
            0 <= precise_degrees,
    ;
}

} // verus!
