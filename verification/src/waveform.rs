//! Waveform sampling in fixed-point arithmetic.
//!
//! A waveform is a periodic function from a phase within one cycle to an
//! amplitude. Phases are measured in units of `1 / PHASE_CYCLE` of a cycle,
//! and amplitudes in units of `1 / AMP_UNIT` of full scale, so an amplitude
//! of `AMP_UNIT` stands for 1.0 and `-AMP_UNIT` for -1.0. The sine shape is
//! realised as a quadratic arc per half-cycle, the standard fixed-point
//! approximation of a sine wave.

use vstd::prelude::*;

verus! {

/// Number of phase units in one full waveform cycle.
pub const PHASE_CYCLE: u32 = 65536;

/// Number of phase units in half a cycle.
pub const PHASE_HALF: u32 = 32768;

/// Fixed-point amplitude scale: `AMP_UNIT` stands for full amplitude 1.0.
pub const AMP_UNIT: i32 = 32768;

/// Divisor that maps the peak of the quadratic arc `p * (PHASE_HALF - p)`
/// (reached at a quarter cycle) onto `AMP_UNIT` exactly.
pub const SINE_SCALE: u32 = 8192;

/// Wave shapes available for metronome sounds.
#[derive(Clone, Copy, Debug, PartialEq, Eq, Structural)]
pub enum WaveType {
    /// Smooth, pure tone.
    Sine,
    /// Harsh, digital sound.
    Square,
    /// Bright, buzzy tone.
    Sawtooth,
    /// Softer than square, warmer than sine.
    Triangle,
}

impl Default for WaveType {
    /// The default wave shape is the sine wave.
    fn default() -> (w: Self)
        ensures
            w == WaveType::Sine,
    {
        WaveType::Sine
    }
}

/// Amplitude of the square wave: full positive over the first half-cycle,
/// full negative over the second.
pub open spec fn square_amp(phase: int) -> int {
    if phase < PHASE_HALF as int {
        AMP_UNIT as int
    } else {
        -(AMP_UNIT as int)
    }
}

/// Amplitude of the sawtooth wave: a linear ramp from `-AMP_UNIT` at phase 0
/// up towards `AMP_UNIT` at the end of the cycle.
pub open spec fn sawtooth_amp(phase: int) -> int {
    phase - AMP_UNIT as int
}

/// Amplitude of the triangle wave: a linear rise from `-AMP_UNIT` to
/// `AMP_UNIT` over the first half-cycle, then a linear fall back.
pub open spec fn triangle_amp(phase: int) -> int {
    if phase < PHASE_HALF as int {
        2 * phase - AMP_UNIT as int
    } else {
        3 * (AMP_UNIT as int) - 2 * phase
    }
}

/// The quadratic arc over one half-cycle: zero at both ends of `[0,
/// PHASE_HALF]` and exactly `AMP_UNIT` at its midpoint.
pub open spec fn arc_amp(p: int) -> int {
    (p * (PHASE_HALF as int - p)) / SINE_SCALE as int
}

/// Amplitude of the sine shape: the quadratic arc rising from 0 to
/// `AMP_UNIT` and back over the first half-cycle, mirrored negative over
/// the second.
pub open spec fn sine_amp(phase: int) -> int {
    if phase < PHASE_HALF as int {
        arc_amp(phase)
    } else {
        -arc_amp(phase - PHASE_HALF as int)
    }
}

/// Amplitude of the given wave shape at a phase already reduced into
/// `[0, PHASE_CYCLE)`.
pub open spec fn wave_amp(wave: WaveType, phase: int) -> int {
    match wave {
        WaveType::Sine => sine_amp(phase),
        WaveType::Square => square_amp(phase),
        WaveType::Sawtooth => sawtooth_amp(phase),
        WaveType::Triangle => triangle_amp(phase),
    }
}

/// The product `p * (h - p)` stays within `[0, (h/2)*(h/2)]` for `p` in
/// `[0, h]`.
proof fn lemma_arc_product_bounds(p: int, h: int)
    requires
        0 <= p <= h,
    ensures
        0 <= p * (h - p),
        4 * (p * (h - p)) <= h * h,
{
    assert(0 <= p * (h - p) && 4 * (p * (h - p)) <= h * h) by (nonlinear_arith)
        requires
            0 <= p <= h,
    ;
}

/// The arc's product over the fixed half-cycle stays within `[0, 2^28]`.
proof fn lemma_arc_product_bounds_half(p: int)
    requires
        0 <= p <= PHASE_HALF as int,
    ensures
        0 <= p * (PHASE_HALF as int - p) <= 268435456,
{
    lemma_arc_product_bounds(p, PHASE_HALF as int);
    assert((PHASE_HALF as int) * (PHASE_HALF as int) == 1073741824) by (nonlinear_arith)
        requires
            PHASE_HALF as int == 32768,
    ;
}

/// The quadratic arc stays within `[0, AMP_UNIT]` over its half-cycle.
proof fn lemma_arc_amp_range(p: int)
    requires
        0 <= p <= PHASE_HALF as int,
    ensures
        0 <= arc_amp(p) <= AMP_UNIT as int,
{
    let q = p * (PHASE_HALF as int - p);
    lemma_arc_product_bounds_half(p);
    vstd::arithmetic::div_mod::lemma_div_is_ordered(0, q, SINE_SCALE as int);
    vstd::arithmetic::div_mod::lemma_div_of0(SINE_SCALE as int);
    vstd::arithmetic::div_mod::lemma_div_is_ordered(q, 268435456, SINE_SCALE as int);
}

/// Quotients of two non-negative numbers within four divisors of each other
/// lie at most four apart.
proof fn lemma_div_step_bound(a: int, b: int, d: int)
    requires
        0 <= a,
        0 <= b,
        0 < d,
        a - b <= 4 * d,
        b - a <= 4 * d,
    ensures
        a / d - b / d <= 4,
        b / d - a / d <= 4,
{
    assert((b + 4 * d) / d == 4 + b / d) by {
        vstd::arithmetic::div_mod::lemma_div_plus_one(b, d);
        vstd::arithmetic::div_mod::lemma_div_plus_one(b + d, d);
        vstd::arithmetic::div_mod::lemma_div_plus_one(b + 2 * d, d);
        vstd::arithmetic::div_mod::lemma_div_plus_one(b + 3 * d, d);
    }
    vstd::arithmetic::div_mod::lemma_div_is_ordered(a, b + 4 * d, d);
    assert((a + 4 * d) / d == 4 + a / d) by {
        vstd::arithmetic::div_mod::lemma_div_plus_one(a, d);
        vstd::arithmetic::div_mod::lemma_div_plus_one(a + d, d);
        vstd::arithmetic::div_mod::lemma_div_plus_one(a + 2 * d, d);
        vstd::arithmetic::div_mod::lemma_div_plus_one(a + 3 * d, d);
    }
    vstd::arithmetic::div_mod::lemma_div_is_ordered(b, a + 4 * d, d);
}

/// One step along the quadratic arc moves its value by at most four
/// fixed-point units.
proof fn lemma_arc_amp_step(p: int)
    requires
        0 <= p < PHASE_HALF as int,
    ensures
        -4 <= arc_amp(p + 1) - arc_amp(p) <= 4,
{
    let h = PHASE_HALF as int;
    assert((p + 1) * (h - (p + 1)) - p * (h - p) == h - 2 * p - 1) by (nonlinear_arith);
    lemma_arc_product_bounds(p, h);
    lemma_arc_product_bounds(p + 1, h);
    lemma_div_step_bound((p + 1) * (h - (p + 1)), p * (h - p), SINE_SCALE as int);
}

/// The quadratic arc vanishes at both ends of the half-cycle.
proof fn lemma_arc_amp_ends()
    ensures
        arc_amp(0) == 0,
        arc_amp(PHASE_HALF as int) == 0,
{
    vstd::arithmetic::div_mod::lemma_div_of0(SINE_SCALE as int);
    assert(0 * (PHASE_HALF as int - 0) == 0) by (nonlinear_arith);
    assert((PHASE_HALF as int) * (PHASE_HALF as int - PHASE_HALF as int) == 0)
        by (nonlinear_arith);
}

/// Every wave shape keeps its amplitude within full scale.
pub proof fn lemma_amp_in_range(wave: WaveType, phase: int)
    requires
        0 <= phase < PHASE_CYCLE as int,
    ensures
        -(AMP_UNIT as int) <= wave_amp(wave, phase) <= AMP_UNIT as int,
{
    match wave {
        WaveType::Sine => {
            if phase < PHASE_HALF as int {
                lemma_arc_amp_range(phase);
            } else {
                lemma_arc_amp_range(phase - PHASE_HALF as int);
            }
        },
        WaveType::Square => {},
        WaveType::Sawtooth => {},
        WaveType::Triangle => {},
    }
}

/// The phase one unit further into the cycle, wrapping back to 0 at the end.
pub open spec fn next_phase(phase: int) -> int {
    if phase + 1 < PHASE_CYCLE as int {
        phase + 1
    } else {
        0
    }
}

/// The sine shape is continuous: a one-unit phase step, wraparound included,
/// moves the amplitude by at most four fixed-point units (about 0.01% of
/// full scale).
pub proof fn lemma_sine_continuous(phase: int)
    requires
        0 <= phase < PHASE_CYCLE as int,
    ensures
        -4 <= sine_amp(next_phase(phase)) - sine_amp(phase) <= 4,
{
    let h = PHASE_HALF as int;
    if phase < h - 1 {
        lemma_arc_amp_step(phase);
    } else if phase == h - 1 {
        lemma_arc_amp_step(h - 1);
        lemma_arc_amp_ends();
    } else if phase < 2 * h - 1 {
        lemma_arc_amp_step(phase - h);
    } else {
        lemma_arc_amp_step(h - 1);
        lemma_arc_amp_ends();
    }
}

/// The triangle wave is continuous: each one-unit phase step, wraparound
/// included, moves the amplitude by exactly two fixed-point units, rising
/// over the first half-cycle and falling over the second.
pub proof fn lemma_triangle_continuous(phase: int)
    requires
        0 <= phase < PHASE_CYCLE as int,
    ensures
        triangle_amp(next_phase(phase)) - triangle_amp(phase) == if phase < PHASE_HALF as int {
            2int
        } else {
            -2int
        },
{
}

/// The square wave jumps exactly once per half-cycle: adjacent phases give
/// different amplitudes precisely at the two half-cycle boundaries.
pub proof fn lemma_square_discontinuities(phase: int)
    requires
        0 <= phase < PHASE_CYCLE as int,
    ensures
        (square_amp(next_phase(phase)) != square_amp(phase)) <==> (phase == PHASE_HALF as int - 1
            || phase == PHASE_CYCLE as int - 1),
{
}

/// The sawtooth wave climbs by one unit per phase step and resets from full
/// positive to full negative amplitude at the phase wraparound.
pub proof fn lemma_sawtooth_reset(phase: int)
    requires
        0 <= phase < PHASE_CYCLE as int,
    ensures
        phase < PHASE_CYCLE as int - 1 ==> sawtooth_amp(next_phase(phase)) - sawtooth_amp(phase)
            == 1,
        sawtooth_amp(PHASE_CYCLE as int - 1) == AMP_UNIT as int - 1,
        sawtooth_amp(0) == -(AMP_UNIT as int),
{
}

/// Samples the given wave shape at the given phase, in fixed-point units.
///
/// The phase is reduced modulo `PHASE_CYCLE`, so the function is total: any
/// phase value denotes a position within one cycle. The amplitude always
/// lies within `[-AMP_UNIT, AMP_UNIT]`.
pub fn sample(wave: WaveType, phase: u32) -> (amp: i32)
    ensures
        amp == wave_amp(wave, (phase % PHASE_CYCLE) as int),
        -AMP_UNIT <= amp <= AMP_UNIT,
{
    let p = phase % PHASE_CYCLE;
    proof {
        lemma_amp_in_range(wave, p as int);
    }
    match wave {
        WaveType::Sine => {
            if p < PHASE_HALF {
                proof {
                    lemma_arc_product_bounds_half(p as int);
                }
                let q = p * (PHASE_HALF - p);
                (q / SINE_SCALE) as i32
            } else {
                let r = p - PHASE_HALF;
                proof {
                    lemma_arc_product_bounds_half(r as int);
                }
                let q = r * (PHASE_HALF - r);
                -((q / SINE_SCALE) as i32)
            }
        },
        WaveType::Square => {
            if p < PHASE_HALF {
                AMP_UNIT
            } else {
                -AMP_UNIT
            }
        },
        WaveType::Sawtooth => (p as i32) - AMP_UNIT,
        WaveType::Triangle => {
            if p < PHASE_HALF {
                2 * (p as i32) - AMP_UNIT
            } else {
                3 * AMP_UNIT - 2 * (p as i32)
            }
        },
    }
}

} // verus!
