//! The run loop, the buffer views and the byte encoder.

use std::cell::{Cell, RefCell};

use redox_audio::{
    encode_samples, DeviceFileError, EventLoop, InputBuffer, OutputBuffer, StreamData, StreamId,
    UnknownTypeOutputBuffer,
};

fn decode_sample(lo: u8, hi: u8) -> i16 {
    i16::from_le_bytes([lo, hi])
}

#[test]
fn encoder_produces_little_endian_pairs() {
    let samples: Vec<i16> = vec![0, 1, -1, 1000, -32768, 32767];
    let bytes = encode_samples(&samples);
    assert_eq!(
        bytes,
        vec![0x00, 0x00, 0x01, 0x00, 0xFF, 0xFF, 0xE8, 0x03, 0x00, 0x80, 0xFF, 0x7F]
    );
}

#[test]
fn encoder_of_empty_buffer_is_empty() {
    let samples: Vec<i16> = Vec::new();
    assert!(encode_samples(&samples).is_empty());
}

#[test]
fn input_buffer_exposes_its_samples() {
    let buffer = InputBuffer::new(vec![1i16, 2, 3]);
    assert_eq!(buffer.buffer().as_slice(), &[1i16, 2, 3]);
    buffer.finish();
}

#[test]
fn output_buffer_mutation_and_finish() {
    let mut buffer = OutputBuffer::new(vec![0i16; 4]);
    assert_eq!(buffer.len(), 4);
    buffer.set(2, 7);
    assert_eq!(buffer.buffer().as_slice(), &[0i16, 0, 7, 0]);
    buffer.buffer()[0] = -2;
    buffer.fill(5);
    let samples = buffer.finish();
    assert_eq!(samples, vec![5i16; 4]);
}

#[test]
fn callback_receives_zeroed_views_of_1024_samples() {
    let event_loop = EventLoop::new();
    let lengths: RefCell<Vec<usize>> = RefCell::new(Vec::new());
    let callback = |_id: StreamId, data: StreamData| -> StreamData {
        let StreamData::Output { buffer: UnknownTypeOutputBuffer::I16(mut b) } = data;
        assert!(b.buffer().iter().all(|&s| s == 0));
        lengths.borrow_mut().push(b.buffer().len());
        StreamData::Output { buffer: UnknownTypeOutputBuffer::I16(b) }
    };
    let sink = event_loop.run_bounded(&callback, 4);
    assert_eq!(*lengths.borrow(), vec![1024; 4]);
    // Exactly 1024 samples times 2 bytes per callback invocation.
    assert_eq!(sink.len(), 4 * 2048);
}

#[test]
fn run_loop_writes_constant_fill_as_bytes() {
    let event_loop = EventLoop::new();
    let callback = |_id: StreamId, data: StreamData| -> StreamData {
        let StreamData::Output { buffer: UnknownTypeOutputBuffer::I16(mut b) } = data;
        b.fill(1000);
        StreamData::Output { buffer: UnknownTypeOutputBuffer::I16(b) }
    };
    let iterations = 3;
    let sink = event_loop.run_bounded(&callback, iterations);
    assert_eq!(sink.len(), iterations * 2048);
    for pair in sink.chunks(2) {
        assert_eq!(decode_sample(pair[0], pair[1]), 1000);
    }
}

#[test]
fn run_loop_keeps_sample_order() {
    let event_loop = EventLoop::new();
    let callback = |_id: StreamId, data: StreamData| -> StreamData {
        let StreamData::Output { buffer: UnknownTypeOutputBuffer::I16(mut b) } = data;
        for i in 0..b.len() {
            b.set(i, i as i16);
        }
        StreamData::Output { buffer: UnknownTypeOutputBuffer::I16(b) }
    };
    let sink = event_loop.run_bounded(&callback, 2);
    assert_eq!(sink.len(), 2 * 2048);
    for period in 0..2 {
        for i in 0..1024 {
            let at = period * 2048 + 2 * i;
            assert_eq!(decode_sample(sink[at], sink[at + 1]), i as i16);
        }
    }
}

#[test]
fn run_loop_with_zero_iterations_writes_nothing() {
    let event_loop = EventLoop::new();
    let callback =
        |_id: StreamId, data: StreamData| -> StreamData { data };
    let sink = event_loop.run_bounded(&callback, 0);
    assert!(sink.is_empty());
}

#[test]
fn open_failure_prevents_every_callback_invocation() {
    let event_loop = EventLoop::new();
    let invocations = Cell::new(0usize);
    let callback = |_id: StreamId, data: StreamData| -> StreamData {
        invocations.set(invocations.get() + 1);
        data
    };
    let result = event_loop.run_guarded(Err(DeviceFileError::OpenFailed), &callback, 5);
    assert_eq!(result, Err(DeviceFileError::OpenFailed));
    assert_eq!(invocations.get(), 0);
}

#[test]
fn open_success_runs_every_iteration() {
    let event_loop = EventLoop::new();
    let invocations = Cell::new(0usize);
    let callback = |_id: StreamId, data: StreamData| -> StreamData {
        invocations.set(invocations.get() + 1);
        data
    };
    let result = event_loop.run_guarded(Ok(()), &callback, 5);
    assert_eq!(invocations.get(), 5);
    assert_eq!(result.unwrap().len(), 5 * 2048);
}
