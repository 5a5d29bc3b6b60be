use fm_synth::envelope::{Envelope, EnvelopeState};
use fm_synth::fixed::ONE;
use fm_synth::params::{Command, SynthState};
use fm_synth::render::{write_frame, Renderer};
use fm_synth::sample::{select_format, Sample, SampleFormat, SampleKind, SetupError};
use fm_synth::wavetable::Wavetable;

const SECOND: u64 = 1 << 32;

fn square_sine() -> Wavetable {
    Wavetable::new(vec![0, ONE, 0, -ONE]).unwrap()
}

fn fully_sustained() -> Envelope {
    let mut env = Envelope::new(SECOND, SECOND, ONE, SECOND);
    env.note_on();
    env.advance(SECOND);
    env.advance(0);
    env
}

// 1 Hz at four samples to the second, no modulation
fn plain_store(amplitude: i64) -> SynthState {
    SynthState::new(ONE, 0, 0, amplitude, fully_sustained())
}

#[test]
fn signed_form_of_silence_and_full_scale() {
    assert_eq!(<i16 as Sample>::encode(0), 0);
    assert_eq!(<i16 as Sample>::encode(ONE), i16::MAX);
    assert_eq!(<i16 as Sample>::encode(-ONE), -i16::MAX);
}

#[test]
fn unsigned_form_of_silence_and_full_scale() {
    assert_eq!(<u16 as Sample>::encode(-ONE), 0);
    assert_eq!(<u16 as Sample>::encode(ONE), u16::MAX);
    assert_eq!(<u16 as Sample>::encode(0), 32_768);
}

#[test]
fn signed_form_rounds_to_the_nearest() {
    // half of 32767 is 16383.5, which goes away from zero
    assert_eq!(<i16 as Sample>::encode(ONE / 2), 16_384);
    assert_eq!(<i16 as Sample>::encode(-ONE / 2), -16_384);
    // a third of 32767 is 10922.33
    assert_eq!(<i16 as Sample>::encode(ONE / 3), 10_922);
    assert_eq!(<i16 as Sample>::encode(-(ONE / 3)), -10_922);
    assert_eq!(<i16 as Sample>::encode(1), 0);
    assert_eq!(<i16 as Sample>::encode(-1), 0);
    // the least sample that rounds to one: half of 2^32 / 32767, rounded up
    assert_eq!(<i16 as Sample>::encode(65_537), 0);
    assert_eq!(<i16 as Sample>::encode(65_539), 1);
    assert_eq!(<i16 as Sample>::encode(-65_539), -1);
}

#[test]
fn unsigned_form_rounds_to_the_nearest() {
    // three quarters of 65535 is 49151.25
    assert_eq!(<u16 as Sample>::encode(ONE / 2), 49_151);
    // a quarter of 65535 is 16383.75
    assert_eq!(<u16 as Sample>::encode(-ONE / 2), 16_384);
    assert_eq!(<u16 as Sample>::encode(1), 32_768);
    assert_eq!(<u16 as Sample>::encode(-1), 32_767);
}

#[test]
fn both_forms_hold_samples_within_one() {
    assert_eq!(<i16 as Sample>::encode(2 * ONE), i16::MAX);
    assert_eq!(<i16 as Sample>::encode(-3 * ONE), -i16::MAX);
    assert_eq!(<i16 as Sample>::encode(i64::MAX), i16::MAX);
    assert_eq!(<i16 as Sample>::encode(i64::MIN), -i16::MAX);
    assert_eq!(<u16 as Sample>::encode(2 * ONE), u16::MAX);
    assert_eq!(<u16 as Sample>::encode(-3 * ONE), 0);
    assert_eq!(<u16 as Sample>::encode(i64::MAX), u16::MAX);
    assert_eq!(<u16 as Sample>::encode(i64::MIN), 0);
}

#[test]
fn fixed_point_form_is_the_sample_itself() {
    assert_eq!(<i64 as Sample>::encode(0), 0);
    assert_eq!(<i64 as Sample>::encode(ONE), ONE);
    assert_eq!(<i64 as Sample>::encode(-12_345), -12_345);
    assert_eq!(<i64 as Sample>::encode(5 * ONE), 5 * ONE);
}

#[test]
fn three_formats_are_supported() {
    assert_eq!(select_format(SampleKind::Float, 32), Ok(SampleFormat::Float32));
    assert_eq!(select_format(SampleKind::Signed, 16), Ok(SampleFormat::Signed16));
    assert_eq!(select_format(SampleKind::Unsigned, 16), Ok(SampleFormat::Unsigned16));
}

#[test]
fn other_formats_are_refused() {
    assert_eq!(select_format(SampleKind::Float, 64), Err(SetupError::UnsupportedFormat));
    assert_eq!(select_format(SampleKind::Float, 16), Err(SetupError::UnsupportedFormat));
    assert_eq!(select_format(SampleKind::Signed, 8), Err(SetupError::UnsupportedFormat));
    assert_eq!(select_format(SampleKind::Signed, 24), Err(SetupError::UnsupportedFormat));
    assert_eq!(select_format(SampleKind::Signed, 32), Err(SetupError::UnsupportedFormat));
    assert_eq!(select_format(SampleKind::Unsigned, 8), Err(SetupError::UnsupportedFormat));
    assert_eq!(select_format(SampleKind::Unsigned, 32), Err(SetupError::UnsupportedFormat));
    assert_eq!(select_format(SampleKind::Unsigned, 0), Err(SetupError::UnsupportedFormat));
}

#[test]
fn renderer_needs_a_sample_rate() {
    assert!(matches!(Renderer::new(0, 2, square_sine()), Err(SetupError::NoSampleRate)));
    assert!(matches!(Renderer::new(0, 0, square_sine()), Err(SetupError::NoSampleRate)));
}

#[test]
fn renderer_needs_a_channel() {
    assert!(matches!(Renderer::new(48_000, 0, square_sine()), Err(SetupError::NoChannels)));
}

#[test]
fn new_renderer_knows_its_stream() {
    let renderer = Renderer::new(48_000, 2, square_sine()).unwrap();
    assert_eq!(renderer.channels(), 2);
    assert_eq!(renderer.sample_rate(), 48_000);
    // 2^32 / 48000 rounded down
    assert_eq!(renderer.sample_period(), 89_478);
    assert_eq!(renderer.voice().carrier.phase, 0);
    assert_eq!(renderer.voice().modulator.phase, 0);
    let other = Renderer::new(1, 1, square_sine()).unwrap();
    assert_eq!(other.sample_period(), SECOND);
    let fast = Renderer::new(u32::MAX, 1, square_sine()).unwrap();
    assert_eq!(fast.sample_period(), 1);
}

#[test]
fn write_frame_fills_one_frame_only() {
    let mut data: Vec<i16> = vec![1, 2, 3, 4, 5, 6, 7, 8];
    write_frame(&mut data, 2, 3, -9);
    assert_eq!(data, vec![1, 2, -9, -9, -9, 6, 7, 8]);
    write_frame(&mut data, 5, 0, 100);
    assert_eq!(data, vec![1, 2, -9, -9, -9, 6, 7, 8]);
    write_frame(&mut data, 7, 1, 100);
    assert_eq!(data, vec![1, 2, -9, -9, -9, 6, 7, 100]);
    write_frame(&mut data, 8, 0, 5);
    assert_eq!(data, vec![1, 2, -9, -9, -9, 6, 7, 100]);
}

#[test]
fn next_sample_is_carrier_times_level_times_amplitude() {
    let mut renderer = Renderer::new(4, 1, square_sine()).unwrap();
    // sustain at a half, amplitude a half
    let mut env = Envelope::new(SECOND, SECOND, ONE / 2, SECOND);
    env.note_on();
    env.advance(SECOND);
    env.advance(SECOND);
    assert_eq!(env.state(), EnvelopeState::Sustain);
    let mut store = SynthState::new(ONE, 0, 0, ONE / 2, env);
    assert_eq!(renderer.next_sample(&mut store), 0);
    assert_eq!(renderer.next_sample(&mut store), ONE / 4);
    assert_eq!(renderer.next_sample(&mut store), 0);
    assert_eq!(renderer.next_sample(&mut store), -ONE / 4);
}

#[test]
fn next_sample_steps_the_envelope_first() {
    // an attack of one second, four samples to the second
    let mut renderer = Renderer::new(4, 1, Wavetable::new(vec![ONE]).unwrap()).unwrap();
    let mut store = SynthState::new(ONE, 0, 0, ONE, Envelope::new(SECOND, SECOND, ONE, SECOND));
    assert_eq!(renderer.next_sample(&mut store), 0);
    store.apply(Command::NoteOn);
    assert_eq!(renderer.next_sample(&mut store), ONE / 4);
    assert_eq!(renderer.next_sample(&mut store), ONE / 2);
    assert_eq!(store.envelope().level(), ONE / 2);
    assert_eq!(renderer.next_sample(&mut store), 3 * ONE / 4);
    assert_eq!(renderer.next_sample(&mut store), ONE);
    assert_eq!(store.envelope().state(), EnvelopeState::Decay);
    store.apply(Command::NoteOff);
    // a quarter of a second of release from one
    assert_eq!(renderer.next_sample(&mut store), 3 * ONE / 4);
}

#[test]
fn next_sample_is_silent_while_idle() {
    let mut renderer = Renderer::new(4, 1, Wavetable::new(vec![ONE]).unwrap()).unwrap();
    let mut store = SynthState::new(ONE, 0, 0, ONE, Envelope::new(SECOND, SECOND, ONE, SECOND));
    for _ in 0..10 {
        assert_eq!(renderer.next_sample(&mut store), 0);
    }
}

#[test]
fn every_channel_of_a_frame_holds_the_same_sample() {
    let mut renderer = Renderer::new(4, 3, square_sine()).unwrap();
    let mut store = plain_store(ONE);
    let mut data: Vec<i16> = vec![77; 18];
    renderer.render(&mut store, &mut data);
    for frame in data.chunks(3) {
        assert_eq!(frame[0], frame[1]);
        assert_eq!(frame[0], frame[2]);
    }
    assert_eq!(
        data,
        vec![
            0, 0, 0, 32_767, 32_767, 32_767, 0, 0, 0, -32_767, -32_767, -32_767, 0, 0, 0, 32_767,
            32_767, 32_767
        ]
    );
}

#[test]
fn render_writes_unsigned_samples() {
    let mut renderer = Renderer::new(4, 2, square_sine()).unwrap();
    let mut store = plain_store(ONE);
    let mut data: Vec<u16> = vec![7; 8];
    renderer.render(&mut store, &mut data);
    assert_eq!(data, vec![32_768, 32_768, 65_535, 65_535, 32_768, 32_768, 0, 0]);
}

#[test]
fn render_writes_fixed_point_samples() {
    let mut renderer = Renderer::new(4, 2, square_sine()).unwrap();
    let mut store = plain_store(ONE / 2);
    let mut data: Vec<i64> = vec![7; 8];
    renderer.render(&mut store, &mut data);
    assert_eq!(data, vec![0, 0, ONE / 2, ONE / 2, 0, 0, -ONE / 2, -ONE / 2]);
}

#[test]
fn render_goes_on_where_it_stopped() {
    let mut whole = Renderer::new(48_000, 2, square_sine()).unwrap();
    let mut whole_store = SynthState::new(
        5_000 * ONE,
        3 * ONE / 2,
        700 * ONE,
        4 * ONE / 5,
        Envelope::new(SECOND / 1000, SECOND / 500, ONE / 2, SECOND / 1000),
    );
    whole_store.apply(Command::NoteOn);
    let mut parts = Renderer::new(48_000, 2, square_sine()).unwrap();
    let mut parts_store = whole_store;

    let mut all: Vec<i16> = vec![0; 400];
    whole.render(&mut whole_store, &mut all);
    let mut first: Vec<i16> = vec![0; 100];
    let mut second: Vec<i16> = vec![0; 300];
    parts.render(&mut parts_store, &mut first);
    parts.render(&mut parts_store, &mut second);
    first.extend(second);
    assert_eq!(all, first);
    assert_eq!(whole_store.envelope().level(), parts_store.envelope().level());
    assert_eq!(whole.voice().carrier.phase, parts.voice().carrier.phase);
    assert_eq!(whole.voice().modulator.phase, parts.voice().modulator.phase);
}

#[test]
fn render_matches_sample_by_sample() {
    let mut by_buffer = Renderer::new(48_000, 2, square_sine()).unwrap();
    let mut by_sample = Renderer::new(48_000, 2, square_sine()).unwrap();
    let mut store = SynthState::new(
        3_000 * ONE,
        2 * ONE,
        900 * ONE,
        ONE,
        Envelope::new(SECOND / 1000, SECOND / 500, ONE / 2, SECOND / 1000),
    );
    store.apply(Command::NoteOn);
    let mut other = store;
    let mut data: Vec<u16> = vec![0; 200];
    by_buffer.render(&mut store, &mut data);
    for frame in data.chunks(2) {
        let want = <u16 as Sample>::encode(by_sample.next_sample(&mut other));
        assert_eq!(frame[0], want);
        assert_eq!(frame[1], want);
    }
}

#[test]
fn render_moves_the_envelope_once_a_frame() {
    // four samples to the second, an attack of two seconds
    let mut renderer = Renderer::new(4, 2, square_sine()).unwrap();
    let mut store =
        SynthState::new(ONE, 0, 0, ONE, Envelope::new(2 * SECOND, SECOND, ONE, SECOND));
    store.apply(Command::NoteOn);
    let mut data: Vec<i16> = vec![0; 8];
    renderer.render(&mut store, &mut data);
    assert_eq!(store.envelope().level(), ONE / 2);
    assert_eq!(store.envelope().state(), EnvelopeState::Attack);
    // levels an eighth, a quarter, three eighths and a half under 0, 1, 0, -1
    assert_eq!(data, vec![0, 0, 8_192, 8_192, 0, 0, -16_384, -16_384]);
}

#[test]
fn render_of_an_empty_buffer_changes_nothing() {
    let mut renderer = Renderer::new(4, 2, square_sine()).unwrap();
    let mut store = plain_store(ONE);
    let mut data: Vec<i16> = Vec::new();
    renderer.render(&mut store, &mut data);
    assert!(data.is_empty());
    assert_eq!(renderer.voice().carrier.phase, 0);
    assert_eq!(store.envelope().level(), ONE);
}

#[test]
fn render_is_silent_before_the_first_note() {
    let mut renderer = Renderer::new(44_100, 2, square_sine()).unwrap();
    let mut store = SynthState::new(
        220 * ONE,
        2 * ONE,
        100 * ONE,
        ONE / 5,
        Envelope::new(SECOND / 100, SECOND / 10, 4 * ONE / 5, 3 * SECOND / 10),
    );
    let mut signed: Vec<i16> = vec![5; 64];
    renderer.render(&mut store, &mut signed);
    assert!(signed.iter().all(|s| *s == 0));
    let mut unsigned: Vec<u16> = vec![5; 64];
    renderer.render(&mut store, &mut unsigned);
    assert!(unsigned.iter().all(|s| *s == 32_768));
}
