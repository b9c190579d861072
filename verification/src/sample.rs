//! Sample encodings and the normalizer that turns raw samples into the
//! canonical signal.
//!
//! Raw integer samples are kept exact: a normalized sample stores the raw
//! value together with the divisor from the encoding table, so the signal it
//! denotes is `value / divisor`. IEEE float samples pass through as their
//! raw 32 bits. Turning either form into an actual floating-point number is
//! left to unverified callers.

use vstd::prelude::*;

verus! {

/// Whether raw samples of an encoding store integers or IEEE floats.
#[derive(Clone, Copy, PartialEq, Eq, Structural, Debug)]
pub enum SampleFamily {
    Int,
    Float,
}

/// The sample encoding a structured container declares: family and bit width.
#[derive(Clone, Copy, PartialEq, Eq, Structural, Debug)]
pub struct Encoding {
    pub family: SampleFamily,
    pub bits: u16,
}

/// Normalization divisor for an integer encoding of the given width:
/// 128 for 8 bits, 32768 for 16, 2^23 for 24, 2^31 for 32.
pub open spec fn divisor_for_bits(bits: u16) -> u32 {
    if bits == 8 {
        128
    } else if bits == 16 {
        32768
    } else if bits == 24 {
        8388608
    } else {
        2147483648
    }
}

/// The encodings the structured fast path handles in-process: integer
/// samples of 8, 16, 24 or 32 bits, and 32-bit floats. Everything else
/// (64-bit floats included) must fall through to the next decode tier.
pub open spec fn fast_path_supported(e: Encoding) -> bool {
    match e.family {
        SampleFamily::Int => e.bits == 8 || e.bits == 16 || e.bits == 24 || e.bits == 32,
        SampleFamily::Float => e.bits == 32,
    }
}

/// One sample of the canonical signal.
///
/// `Scaled { value, divisor }` denotes the signal value `value / divisor`,
/// kept as an exact ratio; `FloatBits` carries an IEEE 754 single-precision
/// value by its raw bits.
#[derive(Clone, Copy, PartialEq, Eq, Structural, Debug)]
pub enum Sample {
    Scaled { value: i32, divisor: u32 },
    FloatBits { bits: u32 },
}

/// A canonical decoded buffer: channel count, sample rate, and interleaved
/// canonical samples. Exactly one is produced per successful decode.
#[derive(Clone, Debug)]
pub struct DecodedAudio {
    pub channels: u16,
    pub sample_rate: u32,
    pub samples: Vec<Sample>,
}

/// Whether the structured fast path can normalize this encoding in-process.
pub fn supported_by_fast_path(e: Encoding) -> (r: bool)
    ensures
        r == fast_path_supported(e),
{
    match e.family {
        SampleFamily::Int => e.bits == 8 || e.bits == 16 || e.bits == 24 || e.bits == 32,
        SampleFamily::Float => e.bits == 32,
    }
}

/// Normalize one raw integer sample of the given width: the canonical
/// sample denotes exactly `value / divisor_for_bits(bits)`, with no
/// clamping applied.
pub fn normalize_int(value: i32, bits: u16) -> (s: Sample)
    requires
        bits == 8 || bits == 16 || bits == 24 || bits == 32,
        -(divisor_for_bits(bits) as int) <= value as int,
        (value as int) < divisor_for_bits(bits) as int,
    ensures
        s == (Sample::Scaled { value, divisor: divisor_for_bits(bits) }),
{
    let divisor: u32 = if bits == 8 {
        128
    } else if bits == 16 {
        32768
    } else if bits == 24 {
        8388608
    } else {
        2147483648
    };
    Sample::Scaled { value, divisor }
}

} // verus!
