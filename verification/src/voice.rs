//! The voice: a carrier whose frequency a modulator bends.

use vstd::prelude::*;
use crate::fixed::{ONE, fixed_add, fixed_mul, product, saturate};
use crate::oscillator::{Oscillator, phase_increment, phase_step};
use crate::params::{SynthModel, SynthState};
use crate::wavetable::{TURN, Wavetable, lookup};

verus! {

/// The carrier frequency of a voice before its first sample: 220 Hz.
pub const INITIAL_CARRIER: i64 = 220 * 0x1_0000_0000;

/// The modulator frequency of a voice before its first sample: 440 Hz.
pub const INITIAL_MODULATOR: i64 = 440 * 0x1_0000_0000;

/// The modulator's frequency: the carrier's times the ratio.
pub open spec fn modulator_frequency(p: SynthModel) -> int {
    saturate(product(p.carrier_freq, p.mod_ratio))
}

/// The carrier's frequency for one sample: its own, moved by the modulation
/// index times the modulator's sample `m`.
pub open spec fn instant_frequency(p: SynthModel, m: int) -> int {
    saturate(p.carrier_freq + saturate(product(p.mod_index, m)))
}

/// A carrier and a modulator at one sample rate, in whole hertz.
#[derive(Clone, Copy, Debug)]
pub struct Voice {
    pub carrier: Oscillator,
    pub modulator: Oscillator,
    pub sample_rate: u32,
}

impl Voice {
    /// The sample that the next tick gives: the waveform at the carrier's
    /// phase.
    pub open spec fn carrier_sample(self, wave: Seq<i64>) -> i64 {
        lookup(wave, self.carrier.phase as int)
    }

    /// The sample of the modulator that bends the next tick.
    pub open spec fn modulator_sample(self, wave: Seq<i64>) -> i64 {
        lookup(wave, self.modulator.phase as int)
    }

    /// The voice one sample later, under the parameters `p`. The modulator
    /// moves on at its frequency. The carrier moves on at its frequency for
    /// this sample and keeps the step of its own frequency, so that no
    /// deviation outlasts its sample.
    pub open spec fn ticked(self, p: SynthModel, wave: Seq<i64>) -> Voice {
        let rate = self.sample_rate as int;
        let bent = phase_step(instant_frequency(p, self.modulator_sample(wave) as int), rate);
        Voice {
            carrier: Oscillator {
                phase: ((self.carrier.phase + bent) % (TURN as int)) as u32,
                phase_inc: phase_step(p.carrier_freq, rate) as u32,
            },
            modulator: (Oscillator {
                phase: self.modulator.phase,
                phase_inc: phase_step(modulator_frequency(p), rate) as u32,
            }).stepped(),
            sample_rate: self.sample_rate,
        }
    }

    /// The voice before its first sample: both oscillators at the start of
    /// their cycles.
    pub open spec fn fresh(sample_rate: u32) -> Voice {
        Voice {
            carrier: Oscillator {
                phase: 0,
                phase_inc: phase_step(INITIAL_CARRIER as int, sample_rate as int) as u32,
            },
            modulator: Oscillator {
                phase: 0,
                phase_inc: phase_step(INITIAL_MODULATOR as int, sample_rate as int) as u32,
            },
            sample_rate,
        }
    }

    /// A voice at the start of both cycles.
    pub fn new(sample_rate: u32) -> (voice: Voice)
        ensures
            voice == Voice::fresh(sample_rate),
    {
        Voice {
            carrier: Oscillator::new(INITIAL_CARRIER, sample_rate),
            modulator: Oscillator::new(INITIAL_MODULATOR, sample_rate),
            sample_rate,
        }
    }

    /// Gives the carrier's sample under a snapshot of the parameters, and
    /// moves both oscillators one sample on.
    pub fn tick(&mut self, params: &SynthState, wave: &Wavetable) -> (sample: i64)
        ensures
            sample == old(self).carrier_sample(wave@),
            -ONE <= sample <= ONE,
            *final(self) == old(self).ticked(params@, wave@),
    {
        let carrier_freq: i64 = params.carrier_freq();
        let mod_freq: i64 = fixed_mul(carrier_freq, params.mod_ratio());
        self.carrier.set_frequency(carrier_freq, self.sample_rate);
        self.modulator.set_frequency(mod_freq, self.sample_rate);
        let m: i64 = self.modulator.next(wave);
        let deviation: i64 = fixed_mul(params.mod_index(), m);
        let bent: i64 = fixed_add(carrier_freq, deviation);
        let nominal: u32 = self.carrier.phase_inc;
        self.carrier.phase_inc = phase_increment(bent, self.sample_rate);
        let sample: i64 = self.carrier.next(wave);
        self.carrier.phase_inc = nominal;
        sample
    }
}

} // verus!
