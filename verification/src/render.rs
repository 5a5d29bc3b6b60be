//! The renderer: one sample for each frame, written to every channel.

use vstd::prelude::*;
use vstd::arithmetic::div_mod::lemma_fundamental_div_mod_converse;
use crate::envelope::EnvelopeState;
use crate::fixed::{ONE, fixed_mul, product, saturate};
use crate::oscillator::phase_step;
use crate::params::{SynthModel, SynthState};
use crate::sample::{Sample, SetupError};
use crate::voice::Voice;
use crate::wavetable::{TURN, Wavetable, lemma_table_index_in_range, lookup, valid_table};

verus! {

/// The output for a carrier sample, an envelope level and a master amplitude:
/// their product, taken from left to right.
pub open spec fn mixed(sample: int, level: int, amplitude: int) -> int {
    saturate(product(saturate(product(sample, level)), amplitude))
}

/// The output for a carrier sample, an envelope level and a master amplitude.
pub fn mix(sample: i64, level: i64, amplitude: i64) -> (out: i64)
    ensures
        out == mixed(sample as int, level as int, amplitude as int),
{
    fixed_mul(fixed_mul(sample, level), amplitude)
}

/// The length of one sample in seconds, rounded down.
pub open spec fn sample_period(sample_rate: int) -> int {
    (ONE as int) / sample_rate
}

/// What a renderer is: its voice, its waveform, the number of channels that it
/// writes and the length of one sample in seconds.
pub struct RendererModel {
    pub voice: Voice,
    pub wave: Seq<i64>,
    pub channels: int,
    pub dt: int,
}

impl RendererModel {
    /// There is a channel and a sample rate, and the length of a sample goes
    /// with the rate.
    pub open spec fn valid(self) -> bool {
        &&& self.channels >= 1
        &&& self.voice.sample_rate >= 1
        &&& self.dt == sample_period(self.voice.sample_rate as int)
    }

    /// The sample that the next frame holds, under the parameters `store`.
    pub open spec fn output(self, store: SynthModel) -> int {
        mixed(
            self.voice.carrier_sample(self.wave) as int,
            store.envelope.advance(self.dt).level,
            store.amplitude,
        )
    }

    /// The renderer one frame later.
    pub open spec fn step(self, store: SynthModel) -> RendererModel {
        RendererModel { voice: self.voice.ticked(store, self.wave), ..self }
    }

    /// The renderer and the parameters `n` frames later, where no command
    /// comes in between.
    pub open spec fn after(self, store: SynthModel, n: nat) -> (RendererModel, SynthModel)
        decreases n,
    {
        if n == 0 {
            (self, store)
        } else {
            let before = self.after(store, (n - 1) as nat);
            (before.0.step(before.1), before.1.advance_envelope(before.0.dt))
        }
    }

    /// The sample of frame `k`, counted from zero.
    pub open spec fn output_at(self, store: SynthModel, k: nat) -> int {
        self.after(store, k).0.output(self.after(store, k).1)
    }
}

/// The parameters ask for the plain carrier at full level: no modulation, the
/// master amplitude at one, and the envelope held at a sustain level of one.
pub open spec fn plain_carrier(store: SynthModel) -> bool {
    &&& store.valid()
    &&& store.mod_index == 0
    &&& store.amplitude == ONE
    &&& store.envelope.state == EnvelopeState::Sustain
    &&& store.envelope.sustain == ONE
}

/// Without modulation and at full level, the output is the waveform itself,
/// read at the carrier's frequency: frame `k` holds the waveform's sample at
/// the carrier's starting phase moved on by `k` steps of that frequency. With
/// a sine for a waveform this is a pure sine.
pub proof fn lemma_plain_carrier_output(r: RendererModel, store: SynthModel, k: nat)
    requires
        r.valid(),
        valid_table(r.wave),
        plain_carrier(store),
    ensures
        plain_carrier(r.after(store, k).1),
        r.after(store, k).1.carrier_freq == store.carrier_freq,
        r.after(store, k).0.valid(),
        r.after(store, k).0.wave == r.wave,
        r.after(store, k).0.voice.sample_rate == r.voice.sample_rate,
        r.after(store, k).0.voice.carrier.phase == (r.voice.carrier.phase + k * phase_step(
            store.carrier_freq,
            r.voice.sample_rate as int,
        )) % (TURN as int),
        r.output_at(store, k) == lookup(
            r.wave,
            (r.voice.carrier.phase + k * phase_step(store.carrier_freq, r.voice.sample_rate as int))
                % (TURN as int),
        ),
    decreases k,
{
    let turn = TURN as int;
    let inc = phase_step(store.carrier_freq, r.voice.sample_rate as int);
    let start = r.voice.carrier.phase as int;
    if k == 0 {
        assert(k * inc == 0) by (nonlinear_arith)
            requires
                k == 0,
        ;
    } else {
        let j = (k - 1) as nat;
        lemma_plain_carrier_output(r, store, j);
        let before = r.after(store, j);
        let m = before.0.voice.modulator_sample(before.0.wave) as int;
        assert(product(0, m) == 0) by {
            assert(0 * m == 0) by (nonlinear_arith);
        }
        assert(k * inc == j * inc + inc) by (nonlinear_arith)
            requires
                k == j + 1,
        ;
        vstd::arithmetic::div_mod::lemma_add_mod_noop(start + j * inc, inc, turn);
        vstd::arithmetic::div_mod::lemma_mod_twice(start + j * inc, turn);
        vstd::arithmetic::div_mod::lemma_add_mod_noop((start + j * inc) % turn, inc, turn);
    }
    let now = r.after(store, k);
    let phase = now.0.voice.carrier.phase as int;
    lemma_table_index_in_range(r.wave.len() as int, phase);
    let sample = now.0.voice.carrier_sample(now.0.wave) as int;
    assert(-ONE <= sample <= ONE);
    assert(product(sample, ONE as int) == sample) by {
        vstd::arithmetic::div_mod::lemma_div_multiples_vanish(sample, ONE as int);
        assert(sample * ONE == ONE * sample) by (nonlinear_arith);
    }
}

/// Writes `value` to each of the `channels` slots of the frame that starts at
/// `start`, and to nothing else.
pub fn write_frame<T: Copy>(data: &mut [T], start: usize, channels: usize, value: T)
    requires
        start + channels <= old(data)@.len(),
    ensures
        final(data)@.len() == old(data)@.len(),
        forall|i: int| start <= i < start + channels ==> final(data)@[i] == value,
        forall|i: int|
            0 <= i < old(data)@.len() && !(start <= i < start + channels) ==> final(data)@[i]
                == old(data)@[i],
{
    let len: usize = data.len();
    let mut channel: usize = 0;
    while channel < channels
        invariant
            channel <= channels,
            start + channels <= len,
            data@.len() == len,
            len == old(data)@.len(),
            forall|i: int| start <= i < start + channel ==> data@[i] == value,
            forall|i: int|
                0 <= i < old(data)@.len() && !(start <= i < start + channel) ==> data@[i] == old(
                    data,
                )@[i],
        decreases channels - channel,
    {
        data[start + channel] = value;
        channel = channel + 1;
    }
}

/// Renders frames for a fixed sample rate and number of channels. Its view
/// is a `RendererModel`, which is valid at all times.
pub struct Renderer {
    voice: Voice,
    wave: Wavetable,
    channels: usize,
    dt: u64,
}

impl View for Renderer {
    type V = RendererModel;

    closed spec fn view(&self) -> RendererModel {
        RendererModel {
            voice: self.voice,
            wave: self.wave@,
            channels: self.channels as int,
            dt: self.dt as int,
        }
    }
}

impl Renderer {
    /// The view is valid: this holds of every value of the type.
    #[verifier::type_invariant]
    pub open spec fn inv(self) -> bool {
        self@.valid()
    }

    /// A renderer for a stream, with a voice at the start of its cycles. A
    /// stream needs a sample rate above zero and at least one channel.
    pub fn new(sample_rate: u32, channels: usize, wave: Wavetable) -> (made: Result<
        Renderer,
        SetupError,
    >)
        ensures
            sample_rate == 0 ==> made == Err::<Renderer, SetupError>(SetupError::NoSampleRate),
            sample_rate > 0 && channels == 0 ==> made == Err::<Renderer, SetupError>(
                SetupError::NoChannels,
            ),
            sample_rate > 0 && channels > 0 ==> made.is_ok(),
            made matches Ok(renderer) ==> renderer@ == (RendererModel {
                voice: Voice::fresh(sample_rate),
                wave: wave@,
                channels: channels as int,
                dt: sample_period(sample_rate as int),
            }) && renderer@.valid(),
    {
        if sample_rate == 0 {
            return Err(SetupError::NoSampleRate);
        }
        if channels == 0 {
            return Err(SetupError::NoChannels);
        }
        let dt: u64 = (ONE as u64) / (sample_rate as u64);
        Ok(Renderer { voice: Voice::new(sample_rate), wave, channels, dt })
    }

    /// The number of channels, at least one.
    pub fn channels(&self) -> (channels: usize)
        ensures
            channels == self@.channels,
            channels >= 1,
    {
        proof {
            use_type_invariant(self);
        }
        self.channels
    }

    /// The sample rate in hertz, at least one.
    pub fn sample_rate(&self) -> (sample_rate: u32)
        ensures
            sample_rate == self@.voice.sample_rate,
            sample_rate >= 1,
    {
        proof {
            use_type_invariant(self);
        }
        self.voice.sample_rate
    }

    /// The voice as it stands.
    pub fn voice(&self) -> (voice: Voice)
        ensures
            voice == self@.voice,
    {
        self.voice
    }

    /// The length of one sample in seconds.
    pub fn sample_period(&self) -> (dt: u64)
        ensures
            dt == self@.dt,
            dt == sample_period(self@.voice.sample_rate as int),
    {
        proof {
            use_type_invariant(self);
        }
        self.dt
    }

    /// Gives the carrier's sample under a snapshot of the parameters, and
    /// moves the voice one sample on.
    pub fn tick(&mut self, snapshot: &SynthState) -> (sample: i64)
        ensures
            sample == old(self)@.voice.carrier_sample(old(self)@.wave),
            -ONE <= sample <= ONE,
            final(self)@ == old(self)@.step(snapshot@),
            final(self)@.valid(),
    {
        proof {
            use_type_invariant(&*self);
        }
        let mut voice: Voice = self.voice;
        let sample: i64 = voice.tick(snapshot, &self.wave);
        self.voice = voice;
        sample
    }

    /// Computes the sample of one frame: takes a snapshot of the parameters,
    /// ticks the voice under it, moves the envelope one sample on, and mixes.
    pub fn next_sample(&mut self, store: &mut SynthState) -> (out: i64)
        ensures
            out == old(self)@.output(old(store)@),
            final(self)@ == old(self)@.step(old(store)@),
            final(store)@ == old(store)@.advance_envelope(old(self)@.dt),
            final(self)@.valid(),
            final(store)@.valid(),
    {
        proof {
            use_type_invariant(&*self);
            use_type_invariant(&*store);
        }
        let snapshot: SynthState = *store;
        let sample: i64 = self.tick(&snapshot);
        let level: i64 = store.advance_envelope(self.dt);
        mix(sample, level, snapshot.amplitude())
    }

    /// Fills a buffer of whole frames: each frame gets one sample, computed
    /// under the parameters as they stand when its turn comes, and every
    /// channel of the frame holds that sample.
    pub fn render<T: Sample>(&mut self, store: &mut SynthState, data: &mut [T])
        requires
            old(data)@.len() % (old(self)@.channels as nat) == 0,
        ensures
            final(data)@.len() == old(data)@.len(),
            (final(self)@, final(store)@) == old(self)@.after(
                old(store)@,
                old(data)@.len() / (old(self)@.channels as nat),
            ),
            forall|i: int|
                0 <= i < old(data)@.len() ==> #[trigger] final(data)@[i] == T::encoding(
                    old(self)@.output_at(old(store)@, (i / old(self)@.channels) as nat),
                ),
            forall|i: int, j: int|
                0 <= i < old(data)@.len() && 0 <= j < old(data)@.len() && i / old(self)@.channels
                    == j / old(self)@.channels ==> #[trigger] final(data)@[i]
                    == #[trigger] final(data)@[j],
            final(self)@.valid(),
            final(store)@.valid(),
    {
        proof {
            use_type_invariant(&*self);
            use_type_invariant(&*store);
        }
        let channels: usize = self.channels;
        let len: usize = data.len();
        let frames: usize = len / channels;
        proof {
            vstd::arithmetic::div_mod::lemma_fundamental_div_mod(len as int, channels as int);
            assert(frames * channels == channels * frames) by (nonlinear_arith);
        }
        let mut frame: usize = 0;
        let mut start: usize = 0;
        while frame < frames
            invariant
                channels == old(self)@.channels,
                channels >= 1,
                len == old(data)@.len(),
                data@.len() == len,
                frames * channels == len,
                frame <= frames,
                start == frame * channels,
                self@.valid(),
                store@.valid(),
                (self@, store@) == old(self)@.after(old(store)@, frame as nat),
                forall|i: int|
                    0 <= i < start ==> #[trigger] data@[i] == T::encoding(
                        old(self)@.output_at(old(store)@, (i / (channels as int)) as nat),
                    ),
            decreases frames - frame,
        {
            proof {
                assert((frame + 1) * channels <= frames * channels) by (nonlinear_arith)
                    requires
                        frame + 1 <= frames,
                        channels >= 1,
                ;
                assert((frame + 1) * channels == frame * channels + channels)
                    by (nonlinear_arith);
            }
            let out: i64 = self.next_sample(store);
            let value: T = T::encode(out);
            write_frame(data, start, channels, value);
            proof {
                assert forall|i: int| 0 <= i < start + channels implies #[trigger] data@[i]
                    == T::encoding(
                    old(self)@.output_at(old(store)@, (i / (channels as int)) as nat),
                ) by {
                    if i >= start {
                        lemma_fundamental_div_mod_converse(
                            i,
                            channels as int,
                            frame as int,
                            i - start,
                        );
                    }
                }
            }
            frame = frame + 1;
            start = start + channels;
        }
    }
}

} // verus!
