//! Device enumeration, format queries and stream lifecycle.

use redox_audio::{
    default_input_device, default_output_device, CreationError, Device, Devices, EventLoop, Format,
    SampleFormat, SampleRate, StreamId, SupportedFormat,
};

fn fixed_format() -> Format {
    Format { channels: 2, sample_rate: SampleRate(44100), data_type: SampleFormat::I16 }
}

fn fixed_supported_format() -> SupportedFormat {
    SupportedFormat {
        channels: 2,
        min_sample_rate: SampleRate(44100),
        max_sample_rate: SampleRate(44100),
        data_type: SampleFormat::I16,
    }
}

#[test]
fn default_devices_always_present() {
    let input = default_input_device();
    let output = default_output_device();
    assert!(input.is_some());
    assert!(output.is_some());
    assert_eq!(input.unwrap(), Device);
    assert_eq!(output.unwrap(), Device);
}

#[test]
fn devices_enumerator_is_empty() {
    let mut devices = Devices::default();
    assert!(devices.next().is_none());
    assert!(devices.next().is_none());
}

#[test]
fn device_name_is_fixed() {
    let device = default_output_device().unwrap();
    assert_eq!(device.name(), "redox");
}

#[test]
fn supported_input_formats_yield_exactly_one() {
    let device = default_input_device().unwrap();
    let mut formats = device.supported_input_formats().unwrap();
    assert_eq!(formats.next(), Some(fixed_supported_format()));
    assert_eq!(formats.next(), None);
    assert_eq!(formats.next(), None);
}

#[test]
fn supported_output_formats_yield_exactly_one() {
    let device = default_output_device().unwrap();
    let mut formats = device.supported_output_formats().unwrap();
    assert_eq!(formats.next(), Some(fixed_supported_format()));
    assert_eq!(formats.next(), None);
    assert_eq!(formats.next(), None);
}

#[test]
fn default_formats_are_fixed() {
    let device = default_output_device().unwrap();
    assert_eq!(device.default_input_format(), Ok(fixed_format()));
    assert_eq!(device.default_output_format(), Ok(fixed_format()));
}

#[test]
fn build_streams_always_succeed_with_singleton_id() {
    let event_loop = EventLoop::new();
    let device = default_output_device().unwrap();
    let format = fixed_format();
    let a: Result<StreamId, CreationError> = event_loop.build_output_stream(&device, &format);
    let b = event_loop.build_output_stream(&device, &format);
    let c = event_loop.build_input_stream(&device, &format);
    assert!(a.is_ok());
    // No per-call uniqueness exists: every build returns the same handle.
    assert_eq!(a.as_ref().unwrap(), b.as_ref().unwrap());
    assert_eq!(a.as_ref().unwrap(), c.as_ref().unwrap());
}

#[test]
fn lifecycle_calls_accept_any_stream_id() {
    let event_loop = EventLoop::new();
    // A handle never obtained from build_*_stream is accepted all the same.
    let foreign = StreamId;
    event_loop.play_stream(foreign.clone());
    event_loop.pause_stream(foreign.clone());
    event_loop.destroy_stream(foreign.clone());
    // Calls after destruction are not rejected either.
    event_loop.play_stream(foreign.clone());
    event_loop.pause_stream(foreign);
}
