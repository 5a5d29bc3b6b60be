//! The phase accumulator.

use vstd::prelude::*;
use vstd::arithmetic::div_mod::{
    lemma_add_mod_noop, lemma_fundamental_div_mod, lemma_fundamental_div_mod_converse,
    lemma_mod_sub_multiples_vanish, lemma_mul_mod_noop_right,
};
use crate::fixed::{ONE, div_round};
use crate::wavetable::{TURN, Wavetable, lookup};

verus! {

/// The phase that one sample adds at a frequency and a sample rate:
/// `frequency / sample_rate` turns, rounded down to a whole phase unit and
/// taken within one turn. A frequency is in hertz and fixed-point, a sample
/// rate in whole hertz. Without a sample rate nothing is added.
pub open spec fn phase_step(frequency: int, sample_rate: int) -> int {
    if sample_rate <= 0 {
        0
    } else {
        (frequency / sample_rate) % (TURN as int)
    }
}

/// The phase that one sample adds at a frequency and a sample rate.
pub fn phase_increment(frequency: i64, sample_rate: u32) -> (inc: u32)
    ensures
        inc == phase_step(frequency as int, sample_rate as int),
{
    if sample_rate == 0 {
        return 0;
    }
    let rate: i64 = sample_rate as i64;
    let whole: i64 = if frequency >= 0 {
        frequency / rate
    } else {
        let below: i64 = -(frequency + 1);
        let k: i64 = below / rate;
        proof {
            lemma_fundamental_div_mod(below as int, rate as int);
            let s = (below as int) % (rate as int);
            assert(rate * (-k - 1) == -(rate * k) - rate) by (nonlinear_arith);
            lemma_fundamental_div_mod_converse(
                frequency as int,
                rate as int,
                -k - 1,
                rate - 1 - s,
            );
        }
        -1 - k
    };
    if whole >= 0 {
        (whole % ONE) as u32
    } else {
        let below: i64 = -(whole + 1);
        let k: i64 = below % ONE;
        (ONE - 1 - k) as u32
    }
}

/// A phase accumulator: where in the cycle it stands, and how far one sample
/// takes it. Both are fractions of a turn in units of 2^-32, so that the
/// phase always lies within one turn.
#[derive(Clone, Copy, Debug)]
pub struct Oscillator {
    pub phase: u32,
    pub phase_inc: u32,
}

impl Oscillator {
    /// The oscillator one sample later.
    pub open spec fn stepped(self) -> Oscillator {
        Oscillator {
            phase: ((self.phase + self.phase_inc) % (TURN as int)) as u32,
            phase_inc: self.phase_inc,
        }
    }

    /// The oscillator `n` samples later.
    pub open spec fn advanced(self, n: nat) -> Oscillator
        decreases n,
    {
        if n == 0 {
            self
        } else {
            self.advanced((n - 1) as nat).stepped()
        }
    }

    /// An oscillator at the start of its cycle, set to a frequency.
    pub fn new(frequency: i64, sample_rate: u32) -> (osc: Oscillator)
        ensures
            osc.phase == 0,
            osc.phase_inc == phase_step(frequency as int, sample_rate as int),
    {
        Oscillator { phase: 0, phase_inc: phase_increment(frequency, sample_rate) }
    }

    /// Sets the frequency; the phase stays where it is.
    pub fn set_frequency(&mut self, frequency: i64, sample_rate: u32)
        ensures
            final(self).phase == old(self).phase,
            final(self).phase_inc == phase_step(frequency as int, sample_rate as int),
    {
        self.phase_inc = phase_increment(frequency, sample_rate);
    }

    /// Gives the waveform's sample at the present phase, then moves one sample
    /// on.
    pub fn next(&mut self, wave: &Wavetable) -> (sample: i64)
        ensures
            sample == lookup(wave@, old(self).phase as int),
            -ONE <= sample <= ONE,
            *final(self) == old(self).stepped(),
    {
        let sample: i64 = wave.sample_at(self.phase);
        self.phase = self.phase.wrapping_add(self.phase_inc);
        sample
    }
}

/// The number of samples in one period of a frequency: `sample_rate / frequency`
/// rounded to the nearest whole number.
pub open spec fn period_steps(frequency: int, sample_rate: int) -> int {
    div_round(sample_rate * ONE, frequency)
}

/// After `n` samples an oscillator has moved on by `n` times its step, within
/// one turn.
pub proof fn lemma_advanced_phase(osc: Oscillator, n: nat)
    ensures
        osc.advanced(n).phase == (osc.phase + n * osc.phase_inc) % (TURN as int),
        osc.advanced(n).phase_inc == osc.phase_inc,
    decreases n,
{
    let turn = TURN as int;
    if n == 0 {
        assert(n * osc.phase_inc == 0) by (nonlinear_arith)
            requires
                n == 0,
        ;
    } else {
        let m = (n - 1) as nat;
        lemma_advanced_phase(osc, m);
        let before = osc.phase + m * osc.phase_inc;
        assert(n * osc.phase_inc == m * osc.phase_inc + osc.phase_inc) by (nonlinear_arith)
            requires
                n == m + 1,
        ;
        lemma_add_mod_noop(before, osc.phase_inc as int, turn);
        assert((osc.phase_inc as int) % turn == osc.phase_inc);
        assert((before % turn) % turn == before % turn) by {
            vstd::arithmetic::div_mod::lemma_mod_twice(before, turn);
        }
        lemma_add_mod_noop(before % turn, osc.phase_inc as int, turn);
    }
}

/// Periodicity. An oscillator set to a frequency above zero, at a sample rate
/// above zero, is back where it started after one period's worth of samples,
/// but for a drift of at most half a step and one phase unit for each sample
/// taken: the number of samples in a period is rounded to a whole number, and
/// the step to a whole phase unit.
pub proof fn lemma_period_returns(frequency: i64, sample_rate: u32, start: u32)
    requires
        frequency > 0,
        sample_rate > 0,
    ensures
        ({
            let n = period_steps(frequency as int, sample_rate as int);
            let step = (frequency as int) / (sample_rate as int);
            let osc = Oscillator {
                phase: start,
                phase_inc: phase_step(frequency as int, sample_rate as int) as u32,
            };
            let drift = if n == 0 {
                0
            } else {
                n * step - TURN
            };
            &&& n >= 0
            &&& -(step + 2 * n) <= 2 * drift <= step
            &&& osc.advanced(n as nat).phase == (start + drift) % (TURN as int)
        }),
{
    let f = frequency as int;
    let r = sample_rate as int;
    let turn = TURN as int;
    let n = period_steps(f, r);
    let step = f / r;
    let inc = phase_step(f, r);
    let osc = Oscillator { phase: start, phase_inc: inc as u32 };
    assert(r * ONE == r * turn);
    assert(r * turn >= 0) by (nonlinear_arith)
        requires
            r > 0,
            turn > 0,
    ;
    assert(n == (2 * (r * turn) + f) / (2 * f));
    lemma_fundamental_div_mod(2 * (r * turn) + f, 2 * f);
    lemma_fundamental_div_mod(f, r);
    let rem_n = (2 * (r * turn) + f) % (2 * f);
    let rem_s = f % r;
    assert(0 <= rem_n < 2 * f);
    assert(0 <= rem_s < r);
    assert(2 * (r * turn) + f == (2 * f) * n + rem_n);
    assert(f == r * step + rem_s);
    assert(n >= 0) by (nonlinear_arith)
        requires
            2 * (r * turn) + f == (2 * f) * n + rem_n,
            rem_n < 2 * f,
            f > 0,
            r * turn >= 0,
    ;
    assert(step >= 0) by (nonlinear_arith)
        requires
            f == r * step + rem_s,
            rem_s < r,
            r > 0,
            f > 0,
    ;
    lemma_advanced_phase(osc, n as nat);
    assert(0 <= inc < turn);
    assert(osc.phase_inc == inc);
    lemma_mul_mod_noop_right(n, step, turn);
    lemma_add_mod_noop(start as int, n * inc, turn);
    lemma_add_mod_noop(start as int, n * step, turn);
    assert((start + n * inc) % turn == (start + n * step) % turn);
    if n == 0 {
        assert(n * step == 0) by (nonlinear_arith)
            requires
                n == 0,
        ;
    } else {
        lemma_mod_sub_multiples_vanish(start + n * step, turn);
        // (2n - 1) f <= 2 r turn < (2n + 1) f, and r step <= f < r (step + 1)
        assert((2 * n - 1) * f <= 2 * (r * turn)) by (nonlinear_arith)
            requires
                2 * (r * turn) + f == (2 * f) * n + rem_n,
                0 <= rem_n,
        ;
        assert(2 * (r * turn) < (2 * n + 1) * f) by (nonlinear_arith)
            requires
                2 * (r * turn) + f == (2 * f) * n + rem_n,
                rem_n < 2 * f,
        ;
        assert((2 * n - 1) * (r * step) <= (2 * n - 1) * f) by (nonlinear_arith)
            requires
                n >= 1,
                r * step <= f,
        ;
        assert((2 * n - 1) * (r * step) == r * ((2 * n - 1) * step)) by (nonlinear_arith);
        assert((2 * n - 1) * step <= 2 * turn) by (nonlinear_arith)
            requires
                r * ((2 * n - 1) * step) <= r * (2 * turn),
                r > 0,
        ;
        assert((2 * n - 1) * step == 2 * (n * step) - step) by (nonlinear_arith);
        assert(r * (step + 1) == r * step + r) by (nonlinear_arith);
        assert((2 * n + 1) * f < (2 * n + 1) * (r * (step + 1))) by (nonlinear_arith)
            requires
                n >= 1,
                f < r * (step + 1),
        ;
        assert((2 * n + 1) * (r * (step + 1)) == r * ((2 * n + 1) * (step + 1))) by (nonlinear_arith);
        assert(2 * turn < (2 * n + 1) * (step + 1)) by (nonlinear_arith)
            requires
                r * (2 * turn) < r * ((2 * n + 1) * (step + 1)),
                r > 0,
        ;
        assert((2 * n + 1) * (step + 1) == 2 * (n * step) + 2 * n + step + 1) by (nonlinear_arith);
    }
}

} // verus!
