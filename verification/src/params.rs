//! The synthesis parameters that the control path writes and the render path
//! reads, and the commands that change them.

use vstd::prelude::*;
use crate::envelope::{Envelope, EnvelopeModel};
use crate::fixed::{ONE, clamp};

verus! {

/// A change that the control path asks for.
#[derive(Clone, Copy, Debug)]
pub enum Command {
    /// Sets the carrier frequency, in hertz: at least one.
    SetCarrier(i64),
    /// Sets the ratio of the modulator's frequency to the carrier's: at least
    /// zero.
    SetRatio(i64),
    /// Sets the modulation index, the widest deviation in hertz: at least zero.
    SetIndex(i64),
    /// Sets the master amplitude: between zero and one.
    SetAmplitude(i64),
    /// A note is held from now on: the envelope starts it.
    NoteOn,
    /// The note is held no longer: the envelope ends it.
    NoteOff,
}

/// What the synthesis parameters are.
pub struct SynthModel {
    pub carrier_freq: int,
    pub mod_ratio: int,
    pub mod_index: int,
    pub amplitude: int,
    pub envelope: EnvelopeModel,
    pub gate: bool,
}

impl SynthModel {
    /// Each parameter lies in its range, and the envelope is valid.
    pub open spec fn valid(self) -> bool {
        &&& ONE <= self.carrier_freq <= i64::MAX
        &&& 0 <= self.mod_ratio <= i64::MAX
        &&& 0 <= self.mod_index <= i64::MAX
        &&& 0 <= self.amplitude <= ONE
        &&& self.envelope.valid()
    }

    /// The parameters after a command. A value beyond its parameter's range is
    /// taken as the nearest one within it.
    pub open spec fn apply(self, command: Command) -> SynthModel {
        match command {
            Command::SetCarrier(hz) => SynthModel {
                carrier_freq: clamp(hz as int, ONE as int, i64::MAX as int),
                ..self
            },
            Command::SetRatio(ratio) => SynthModel {
                mod_ratio: clamp(ratio as int, 0, i64::MAX as int),
                ..self
            },
            Command::SetIndex(index) => SynthModel {
                mod_index: clamp(index as int, 0, i64::MAX as int),
                ..self
            },
            Command::SetAmplitude(amplitude) => SynthModel {
                amplitude: clamp(amplitude as int, 0, ONE as int),
                ..self
            },
            Command::NoteOn => SynthModel { gate: true, envelope: self.envelope.note_on(), ..self },
            Command::NoteOff => SynthModel {
                gate: false,
                envelope: self.envelope.note_off(),
                ..self
            },
        }
    }

    /// The parameters once the envelope has moved `dt` seconds on.
    pub open spec fn advance_envelope(self, dt: int) -> SynthModel {
        SynthModel { envelope: self.envelope.advance(dt), ..self }
    }
}

/// The synthesis parameters, with the envelope that note on and note off
/// drive. Its view
/// is a `SynthModel`, which is valid at all times.
#[derive(Clone, Copy, Debug)]
pub struct SynthState {
    carrier_freq: i64,
    mod_ratio: i64,
    mod_index: i64,
    amplitude: i64,
    envelope: Envelope,
    gate: bool,
}

impl View for SynthState {
    type V = SynthModel;

    closed spec fn view(&self) -> SynthModel {
        SynthModel {
            carrier_freq: self.carrier_freq as int,
            mod_ratio: self.mod_ratio as int,
            mod_index: self.mod_index as int,
            amplitude: self.amplitude as int,
            envelope: self.envelope@,
            gate: self.gate,
        }
    }
}

impl SynthState {
    /// The view is valid: this holds of every value of the type.
    #[verifier::type_invariant]
    pub open spec fn inv(self) -> bool {
        self@.valid()
    }

    /// Parameters with no note held. A value beyond its parameter's range is
    /// taken as the nearest one within it.
    pub fn new(
        carrier_freq: i64,
        mod_ratio: i64,
        mod_index: i64,
        amplitude: i64,
        envelope: Envelope,
    ) -> (state: SynthState)
        ensures
            state@ == (SynthModel {
                carrier_freq: clamp(carrier_freq as int, ONE as int, i64::MAX as int),
                mod_ratio: clamp(mod_ratio as int, 0, i64::MAX as int),
                mod_index: clamp(mod_index as int, 0, i64::MAX as int),
                amplitude: clamp(amplitude as int, 0, ONE as int),
                envelope: envelope@,
                gate: false,
            }),
            state@.valid(),
    {
        proof {
            use_type_invariant(&envelope);
        }
        SynthState {
            carrier_freq: if carrier_freq < ONE { ONE } else { carrier_freq },
            mod_ratio: if mod_ratio < 0 { 0 } else { mod_ratio },
            mod_index: if mod_index < 0 { 0 } else { mod_index },
            amplitude: if amplitude < 0 { 0 } else if amplitude > ONE { ONE } else { amplitude },
            envelope,
            gate: false,
        }
    }

    /// The carrier frequency in hertz, at least one.
    pub fn carrier_freq(&self) -> (hz: i64)
        ensures
            hz == self@.carrier_freq,
            hz >= ONE,
    {
        proof {
            use_type_invariant(self);
        }
        self.carrier_freq
    }

    /// The ratio of the modulator's frequency to the carrier's, at least zero.
    pub fn mod_ratio(&self) -> (ratio: i64)
        ensures
            ratio == self@.mod_ratio,
            ratio >= 0,
    {
        proof {
            use_type_invariant(self);
        }
        self.mod_ratio
    }

    /// The modulation index, at least zero.
    pub fn mod_index(&self) -> (index: i64)
        ensures
            index == self@.mod_index,
            index >= 0,
    {
        proof {
            use_type_invariant(self);
        }
        self.mod_index
    }

    /// The master amplitude, between zero and one.
    pub fn amplitude(&self) -> (amplitude: i64)
        ensures
            amplitude == self@.amplitude,
            0 <= amplitude <= ONE,
    {
        proof {
            use_type_invariant(self);
        }
        self.amplitude
    }

    /// Whether a note is held.
    pub fn gate(&self) -> (gate: bool)
        ensures
            gate == self@.gate,
    {
        self.gate
    }

    /// The envelope as it stands.
    pub fn envelope(&self) -> (envelope: Envelope)
        ensures
            envelope@ == self@.envelope,
    {
        self.envelope
    }

    /// Carries out a command.
    pub fn apply(&mut self, command: Command)
        ensures
            final(self)@ == old(self)@.apply(command),
            final(self)@.valid(),
    {
        proof {
            use_type_invariant(&*self);
        }
        match command {
            Command::SetCarrier(hz) => {
                self.carrier_freq = if hz < ONE { ONE } else { hz };
            },
            Command::SetRatio(ratio) => {
                self.mod_ratio = if ratio < 0 { 0 } else { ratio };
            },
            Command::SetIndex(index) => {
                self.mod_index = if index < 0 { 0 } else { index };
            },
            Command::SetAmplitude(amplitude) => {
                self.amplitude = if amplitude < 0 { 0 } else if amplitude > ONE { ONE } else { amplitude };
            },
            Command::NoteOn => {
                let mut envelope: Envelope = self.envelope;
                envelope.note_on();
                self.gate = true;
                self.envelope = envelope;
            },
            Command::NoteOff => {
                let mut envelope: Envelope = self.envelope;
                envelope.note_off();
                self.gate = false;
                self.envelope = envelope;
            },
        }
    }

    /// Moves the envelope `dt` seconds on and gives its new level.
    pub fn advance_envelope(&mut self, dt: u64) -> (level: i64)
        ensures
            final(self)@ == old(self)@.advance_envelope(dt as int),
            level == final(self)@.envelope.level,
            0 <= level <= ONE,
            final(self)@.valid(),
    {
        proof {
            use_type_invariant(&*self);
        }
        let mut envelope: Envelope = self.envelope;
        let level: i64 = envelope.advance(dt);
        self.envelope = envelope;
        level
    }
}

} // verus!
