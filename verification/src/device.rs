//! The single canonical audio endpoint this backend exposes, and the
//! enumerators around it.
//!
//! Device enumeration yields nothing: the canonical device is handed out
//! out-of-band by the default-device helpers, which always succeed. Format
//! queries on the device always report exactly one supported format.

use vstd::prelude::*;

use crate::errors::{DefaultFormatError, FormatsEnumerationError};
use crate::format::{canonical_format, canonical_supported_format, Format, SupportedFormat};

verus! {

/// The single addressable audio endpoint of this backend.
#[derive(Clone, Debug, PartialEq, Eq, Structural)]
pub struct Device;

/// A lazy enumerator over audio endpoints. This backend enumerates none:
/// the canonical device is only reachable through the default-device
/// helpers.
#[derive(Default)]
pub struct Devices;

impl Devices {
    /// Yields the next enumerated device; always exhausted in this backend.
    pub fn next(&mut self) -> (r: Option<Device>)
        ensures
            r == Option::<Device>::None,
    {
        None
    }
}

/// The default input endpoint. Always present in this backend.
pub fn default_input_device() -> (r: Option<Device>)
    ensures
        r == Some(Device),
{
    Some(Device)
}

/// The default output endpoint. Always present in this backend.
pub fn default_output_device() -> (r: Option<Device>)
    ensures
        r == Some(Device),
{
    Some(Device)
}

/// A lazy sequence of the formats a device supports for input. The view is
/// the sequence of formats still to be yielded.
pub struct SupportedInputFormats {
    remaining: Option<SupportedFormat>,
}

impl View for SupportedInputFormats {
    type V = Seq<SupportedFormat>;

    closed spec fn view(&self) -> Seq<SupportedFormat> {
        match self.remaining {
            Some(f) => seq![f],
            None => Seq::empty(),
        }
    }
}

impl SupportedInputFormats {
    /// Yields the next supported format, exhausting the sequence front to
    /// back.
    pub fn next(&mut self) -> (r: Option<SupportedFormat>)
        ensures
            old(self)@.len() == 0 ==> r == Option::<SupportedFormat>::None && final(self)@
                == old(self)@,
            old(self)@.len() > 0 ==> r == Some(old(self)@[0]) && final(self)@ == old(
                self,
            )@.drop_first(),
    {
        let r = self.remaining;
        self.remaining = None;
        proof {
            if r.is_some() {
                assert(final(self)@ =~= old(self)@.drop_first());
            }
        }
        r
    }
}

/// A lazy sequence of the formats a device supports for output. The view is
/// the sequence of formats still to be yielded.
pub struct SupportedOutputFormats {
    remaining: Option<SupportedFormat>,
}

impl View for SupportedOutputFormats {
    type V = Seq<SupportedFormat>;

    closed spec fn view(&self) -> Seq<SupportedFormat> {
        match self.remaining {
            Some(f) => seq![f],
            None => Seq::empty(),
        }
    }
}

impl SupportedOutputFormats {
    /// Yields the next supported format, exhausting the sequence front to
    /// back.
    pub fn next(&mut self) -> (r: Option<SupportedFormat>)
        ensures
            old(self)@.len() == 0 ==> r == Option::<SupportedFormat>::None && final(self)@
                == old(self)@,
            old(self)@.len() > 0 ==> r == Some(old(self)@[0]) && final(self)@ == old(
                self,
            )@.drop_first(),
    {
        let r = self.remaining;
        self.remaining = None;
        proof {
            if r.is_some() {
                assert(final(self)@ =~= old(self)@.drop_first());
            }
        }
        r
    }
}

impl Device {
    /// The formats this device accepts for input: exactly the canonical
    /// format, then exhausted. Declared fallible for the API surface, but
    /// this backend always succeeds.
    pub fn supported_input_formats(&self) -> (r: Result<
        SupportedInputFormats,
        FormatsEnumerationError,
    >)
        ensures
            r matches Ok(s) && s@ == seq![canonical_supported_format()],
    {
        Ok(
            SupportedInputFormats {
                remaining: Some(
                    SupportedFormat {
                        channels: 2,
                        min_sample_rate: crate::format::SampleRate(44100),
                        max_sample_rate: crate::format::SampleRate(44100),
                        data_type: crate::format::SampleFormat::I16,
                    },
                ),
            },
        )
    }

    /// The formats this device accepts for output: exactly the canonical
    /// format, then exhausted. Declared fallible for the API surface, but
    /// this backend always succeeds.
    pub fn supported_output_formats(&self) -> (r: Result<
        SupportedOutputFormats,
        FormatsEnumerationError,
    >)
        ensures
            r matches Ok(s) && s@ == seq![canonical_supported_format()],
    {
        Ok(
            SupportedOutputFormats {
                remaining: Some(
                    SupportedFormat {
                        channels: 2,
                        min_sample_rate: crate::format::SampleRate(44100),
                        max_sample_rate: crate::format::SampleRate(44100),
                        data_type: crate::format::SampleFormat::I16,
                    },
                ),
            },
        )
    }

    /// The format this device uses for input when the caller states no
    /// preference: always the canonical format.
    pub fn default_input_format(&self) -> (r: Result<Format, DefaultFormatError>)
        ensures
            r == Ok::<Format, DefaultFormatError>(canonical_format()),
    {
        Ok(
            Format {
                channels: 2,
                sample_rate: crate::format::SampleRate(44100),
                data_type: crate::format::SampleFormat::I16,
            },
        )
    }

    /// The format this device uses for output when the caller states no
    /// preference: always the canonical format.
    pub fn default_output_format(&self) -> (r: Result<Format, DefaultFormatError>)
        ensures
            r == Ok::<Format, DefaultFormatError>(canonical_format()),
    {
        Ok(
            Format {
                channels: 2,
                sample_rate: crate::format::SampleRate(44100),
                data_type: crate::format::SampleFormat::I16,
            },
        )
    }

    /// A human-readable name for the backend's canonical device.
    pub fn name(&self) -> (r: String)
        ensures
            r@ == "redox"@,
    {
        "redox".to_owned()
    }
}

} // verus!
