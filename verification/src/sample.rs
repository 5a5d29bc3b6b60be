//! The representations in which samples leave the engine.

use vstd::prelude::*;
use crate::fixed::{ONE, clamp, div_round};

verus! {

/// A sample as a signed 16-bit number: held between minus one and one, scaled
/// by the largest such number and rounded to the nearest.
pub open spec fn signed16(x: int) -> int {
    div_round(clamp(x, -ONE, ONE as int) * 32767, ONE as int)
}

/// A sample as an unsigned 16-bit number: held between minus one and one,
/// halved and raised by a half, scaled by the largest such number and rounded
/// to the nearest.
pub open spec fn unsigned16(x: int) -> int {
    div_round((clamp(x, -ONE, ONE as int) + ONE) * 65535, 2 * ONE)
}

/// The signed form fits in 16 bits, and is as far below zero for a sample as
/// it is above zero for the sample's negative.
pub proof fn lemma_signed16_range(x: int)
    ensures
        -32767 <= signed16(x) <= 32767,
        signed16(-x) == -signed16(x),
{
}

/// The unsigned form fits in 16 bits.
pub proof fn lemma_unsigned16_range(x: int)
    ensures
        0 <= unsigned16(x) <= 65535,
{
}

/// A representation of samples that an output buffer can hold.
pub trait Sample: Copy {
    /// What the representation makes of a fixed-point sample.
    spec fn encoding(x: int) -> Self;

    /// Turns a fixed-point sample into the representation.
    fn encode(x: i64) -> (s: Self)
        ensures
            s == Self::encoding(x as int),
    ;
}

/// Fixed-point samples go out as they are; a buffer of floating-point numbers
/// takes each of them divided by `ONE`.
impl Sample for i64 {
    open spec fn encoding(x: int) -> i64 {
        x as i64
    }

    fn encode(x: i64) -> (s: i64) {
        x
    }
}

impl Sample for i16 {
    open spec fn encoding(x: int) -> i16 {
        signed16(x) as i16
    }

    fn encode(x: i64) -> (s: i16) {
        let held: i64 = if x < -ONE {
            -ONE
        } else if x > ONE {
            ONE
        } else {
            x
        };
        let scaled: i64 = held * 32767;
        let rounded: i64 = if scaled >= 0 {
            (2 * scaled + ONE) / (2 * ONE)
        } else {
            -((2 * (-scaled) + ONE) / (2 * ONE))
        };
        proof {
            lemma_signed16_range(x as int);
        }
        rounded as i16
    }
}

impl Sample for u16 {
    open spec fn encoding(x: int) -> u16 {
        unsigned16(x) as u16
    }

    fn encode(x: i64) -> (s: u16) {
        let held: i64 = if x < -ONE {
            -ONE
        } else if x > ONE {
            ONE
        } else {
            x
        };
        let scaled: i64 = (held + ONE) * 65535;
        let rounded: i64 = (2 * scaled + 2 * ONE) / (4 * ONE);
        proof {
            lemma_unsigned16_range(x as int);
        }
        rounded as u16
    }
}

/// How a device holds one sample.
#[derive(Clone, Copy, Debug, PartialEq, Eq, Structural)]
pub enum SampleKind {
    Float,
    Signed,
    Unsigned,
}

/// A representation that the engine can write.
#[derive(Clone, Copy, Debug, PartialEq, Eq, Structural)]
pub enum SampleFormat {
    /// Floating point, 32 bits wide, between minus one and one.
    Float32,
    /// Signed integers, 16 bits wide.
    Signed16,
    /// Unsigned integers, 16 bits wide.
    Unsigned16,
}

/// Why a stream cannot be set up.
#[derive(Clone, Copy, Debug, PartialEq, Eq, Structural)]
pub enum SetupError {
    /// The device asks for a representation that the engine cannot write.
    UnsupportedFormat,
    /// The sample rate is zero.
    NoSampleRate,
    /// There is no channel.
    NoChannels,
}

/// The representation for a kind of sample and its width in bits, where the
/// engine can write it.
pub open spec fn supported_format(kind: SampleKind, bits: u32) -> Option<SampleFormat> {
    match kind {
        SampleKind::Float => if bits == 32 {
            Some(SampleFormat::Float32)
        } else {
            None
        },
        SampleKind::Signed => if bits == 16 {
            Some(SampleFormat::Signed16)
        } else {
            None
        },
        SampleKind::Unsigned => if bits == 16 {
            Some(SampleFormat::Unsigned16)
        } else {
            None
        },
    }
}

/// Picks the representation for what a device asks for, or says that the
/// engine cannot write it.
pub fn select_format(kind: SampleKind, bits: u32) -> (picked: Result<SampleFormat, SetupError>)
    ensures
        picked == (match supported_format(kind, bits) {
            Some(format) => Ok::<SampleFormat, SetupError>(format),
            None => Err::<SampleFormat, SetupError>(SetupError::UnsupportedFormat),
        }),
{
    match kind {
        SampleKind::Float => if bits == 32 {
            Ok(SampleFormat::Float32)
        } else {
            Err(SetupError::UnsupportedFormat)
        },
        SampleKind::Signed => if bits == 16 {
            Ok(SampleFormat::Signed16)
        } else {
            Err(SetupError::UnsupportedFormat)
        },
        SampleKind::Unsigned => if bits == 16 {
            Ok(SampleFormat::Unsigned16)
        } else {
            Err(SetupError::UnsupportedFormat)
        },
    }
}

} // verus!
