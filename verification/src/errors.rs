//! Error kinds of the backend's fallible operations.
//!
//! The enumeration, format-query and stream-creation errors are declared for
//! the API surface but are never produced by this backend: every such call
//! succeeds, and each contract says so. Only the device file can fail, and
//! that failure is reported before the run loop starts.

use vstd::prelude::*;

verus! {

/// Failure while enumerating a device's supported formats.
/// Never produced by this backend.
#[derive(Clone, Copy, Debug, PartialEq, Eq, Structural)]
pub enum FormatsEnumerationError {
    DeviceNotAvailable,
}

/// Failure while querying a device's default format.
/// Never produced by this backend.
#[derive(Clone, Copy, Debug, PartialEq, Eq, Structural)]
pub enum DefaultFormatError {
    DeviceNotAvailable,
    StreamTypeNotSupported,
}

/// Failure while building a stream.
/// Never produced by this backend.
#[derive(Clone, Copy, Debug, PartialEq, Eq, Structural)]
pub enum CreationError {
    DeviceNotAvailable,
    FormatNotSupported,
}

/// Failure of the audio device file. The guarded run loop refuses to start
/// when the device file could not be opened, before any callback runs.
#[derive(Clone, Copy, Debug, PartialEq, Eq, Structural)]
pub enum DeviceFileError {
    OpenFailed,
}

} // verus!
