//! A minimal audio backend for an operating system that exposes its audio
//! hardware as a writable device file.
//!
//! The backend models a single canonical device with one fixed stream format
//! (stereo, 44100 Hz, 16-bit signed samples). Device enumeration, format
//! queries and stream lifecycle calls are stubs with fully pinned-down
//! contracts; the run loop's per-iteration work (handing a zeroed buffer to
//! the caller's callback and encoding the filled buffer as little-endian
//! bytes) is verified here, while the device file itself is opened and
//! written by unverified glue around this crate.

pub mod buffer;
pub mod device;
pub mod encode;
pub mod event_loop;
pub mod errors;
pub mod format;

pub use buffer::{InputBuffer, OutputBuffer, StreamData, UnknownTypeOutputBuffer};
pub use device::{
    default_input_device, default_output_device, Device, Devices, SupportedInputFormats,
    SupportedOutputFormats,
};
pub use encode::encode_samples;
pub use errors::{CreationError, DefaultFormatError, DeviceFileError, FormatsEnumerationError};
pub use event_loop::{EventLoop, StreamId};
pub use format::{Format, SampleFormat, SampleRate, SupportedFormat};
