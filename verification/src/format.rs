//! Passive value types describing a stream's encoding, and the one fixed
//! format this backend ever negotiates.

use vstd::prelude::*;

verus! {

/// The sample encodings this backend can describe. Only 16-bit signed
/// samples are ever produced by the run loop.
#[derive(Clone, Copy, Debug, PartialEq, Eq, Structural)]
pub enum SampleFormat {
    I16,
    U16,
}

/// A sample rate in Hertz.
#[derive(Clone, Copy, Debug, PartialEq, Eq, Structural)]
pub struct SampleRate(pub u32);

/// The agreed encoding of one audio stream: channel count, sample rate and
/// sample encoding. Immutable once constructed.
#[derive(Clone, Copy, Debug, PartialEq, Eq, Structural)]
pub struct Format {
    pub channels: u16,
    pub sample_rate: SampleRate,
    pub data_type: SampleFormat,
}

/// A range of formats a device supports. In this backend the range is always
/// collapsed to a single point: `min_sample_rate == max_sample_rate`.
#[derive(Clone, Copy, Debug, PartialEq, Eq, Structural)]
pub struct SupportedFormat {
    pub channels: u16,
    pub min_sample_rate: SampleRate,
    pub max_sample_rate: SampleRate,
    pub data_type: SampleFormat,
}

/// The one format this backend ever reports: stereo, 44100 Hz, 16-bit
/// signed samples.
pub open spec fn canonical_format() -> Format {
    Format { channels: 2, sample_rate: SampleRate(44100), data_type: SampleFormat::I16 }
}

/// The canonical format stated as a (collapsed) range descriptor.
pub open spec fn canonical_supported_format() -> SupportedFormat {
    SupportedFormat {
        channels: 2,
        min_sample_rate: SampleRate(44100),
        max_sample_rate: SampleRate(44100),
        data_type: SampleFormat::I16,
    }
}

} // verus!
