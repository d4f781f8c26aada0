//! Phase-accumulator sine oscillator.
//!
//! The oscillator keeps a phase in `[0, TAU)` and a per-step increment
//! derived from a frequency; both are Q16.16 angles. `advance` moves the
//! phase one step and wraps it, `read` evaluates the sine of the current
//! phase without mutating anything, and `set_frequency` swaps the
//! increment while leaving the phase untouched, so a frequency change
//! never causes a discontinuity.

use vstd::prelude::*;
use vstd::arithmetic::div_mod::*;

use crate::math;
use crate::math::{ONE, TAU, SAMPLE_RATE, SCALE_LIMIT};

verus! {

/// Mathematical state of a [`Sine`] oscillator.
pub ghost struct SineModel {
    pub phase: int,
    pub phase_inc: int,
}

impl SineModel {
    /// Well-formedness: the phase is wrapped and the increment is at most
    /// one full turn in magnitude.
    pub open spec fn wf(self) -> bool {
        &&& 0 <= self.phase < TAU
        &&& -TAU <= self.phase_inc <= TAU
    }

    /// One `advance` step: add the increment and wrap into `[0, TAU)`.
    pub open spec fn advanced(self) -> SineModel {
        SineModel { phase: (self.phase + self.phase_inc) % (TAU as int), phase_inc: self.phase_inc }
    }

    /// `n` successive `advance` steps.
    pub open spec fn advanced_times(self, n: nat) -> SineModel
        decreases n,
    {
        if n == 0 {
            self
        } else {
            self.advanced_times((n - 1) as nat).advanced()
        }
    }
}

/// The phase increment that [`Sine::set_frequency`] derives from a
/// Q16.16 frequency: `TAU * frequency / SAMPLE_RATE`.
pub open spec fn phase_inc_spec(frequency: int) -> int {
    TAU * frequency / (SAMPLE_RATE * ONE)
}

/// Law: advances accumulate. Starting from a wrapped phase, `n` advance
/// steps with a fixed increment land on `(phase + n * phase_inc) mod TAU`.
pub proof fn lemma_advance_accumulates(m: SineModel, n: nat)
    requires
        0 <= m.phase < TAU,
    ensures
        m.advanced_times(n).phase == (m.phase + n * m.phase_inc) % (TAU as int),
        m.advanced_times(n).phase_inc == m.phase_inc,
    decreases n,
{
    if n == 0 {
        lemma_small_mod(m.phase as nat, TAU as nat);
    } else {
        lemma_advance_accumulates(m, (n - 1) as nat);
        lemma_add_mod_noop_right(m.phase_inc, m.phase + (n - 1) * m.phase_inc, TAU as int);
        assert((n - 1) * m.phase_inc + m.phase_inc == n * m.phase_inc) by (nonlinear_arith);
    }
}

/// Phase-accumulator sine oscillator in Q16.16.
pub struct Sine {
    phase_inc: i64,
    phase: i64,
}

impl View for Sine {
    type V = SineModel;

    closed spec fn view(&self) -> SineModel {
        SineModel { phase: self.phase as int, phase_inc: self.phase_inc as int }
    }
}

impl Sine {
    /// Creates an oscillator at `frequency` with an explicit initial
    /// phase; the phase is reduced modulo one turn before storage.
    pub fn new(frequency: i64, phase: i64) -> (s: Sine)
        requires
            -SCALE_LIMIT <= frequency <= SCALE_LIMIT,
        ensures
            s@.phase == phase as int % (TAU as int),
            s@.phase_inc == phase_inc_spec(frequency as int),
            s@.wf(),
    {
        proof {
            lemma_mod_bound(phase as int, TAU as int);
        }
        let opt: Option<i64> = phase.checked_rem_euclid(TAU);
        let mut sine = Sine { phase_inc: 0, phase: opt.unwrap() };
        sine.set_frequency(frequency);
        sine
    }

    /// The sine of the current phase; pure, no mutation.
    pub fn read(&self) -> (r: i64)
        requires
            self@.wf(),
        ensures
            r == math::sin_spec(self@.phase),
            -ONE <= r <= ONE,
    {
        math::sine_value(self.phase)
    }

    /// Recomputes the phase increment for `frequency`; the phase itself
    /// is untouched, so the waveform stays continuous.
    pub fn set_frequency(&mut self, frequency: i64)
        requires
            0 <= old(self)@.phase < TAU,
            -SCALE_LIMIT <= frequency <= SCALE_LIMIT,
        ensures
            final(self)@.phase == old(self)@.phase,
            final(self)@.phase_inc == phase_inc_spec(frequency as int),
            final(self)@.wf(),
    {
        let num: i64 = TAU * frequency;
        proof {
            let den = (SAMPLE_RATE * ONE) as int;
            lemma_phase_inc_in_turn(num as int, den);
        }
        let opt: Option<i64> = num.checked_div_euclid(SAMPLE_RATE * ONE);
        self.phase_inc = opt.unwrap();
    }

    /// Moves the phase one increment forward and wraps it into
    /// `[0, TAU)`.
    pub fn advance(&mut self)
        requires
            old(self)@.wf(),
        ensures
            final(self)@ == old(self)@.advanced(),
            final(self)@.wf(),
    {
        let shifted: i64 = self.phase + self.phase_inc;
        proof {
            lemma_mod_bound(shifted as int, TAU as int);
        }
        let opt: Option<i64> = shifted.checked_rem_euclid(TAU);
        self.phase = opt.unwrap();
    }

    /// The current phase, a wrapped Q16.16 angle.
    pub fn phase(&self) -> (r: i64)
        ensures
            r == self@.phase,
    {
        self.phase
    }

    /// The current per-step phase increment.
    pub fn phase_increment(&self) -> (r: i64)
        ensures
            r == self@.phase_inc,
    {
        self.phase_inc
    }
}

/// The increment derived from a capped frequency stays within one turn.
proof fn lemma_phase_inc_in_turn(num: int, den: int)
    requires
        den == SAMPLE_RATE * ONE,
        -TAU * SCALE_LIMIT <= num <= TAU * SCALE_LIMIT,
    ensures
        -TAU <= num / den <= TAU,
{
    lemma_div_is_ordered(num, TAU * SCALE_LIMIT, den);
    lemma_div_is_ordered(-TAU * SCALE_LIMIT, num, den);
    lemma_div_is_ordered(TAU * SCALE_LIMIT, TAU * den, den);
    lemma_div_is_ordered(-TAU * den, -TAU * SCALE_LIMIT, den);
    lemma_div_multiples_vanish(TAU as int, den);
    lemma_div_multiples_vanish(-TAU as int, den);
    assert(den * TAU == TAU * den);
    assert(den * -TAU == -TAU * den);
}

} // verus!
