//! The run loop and stream lifecycle bookkeeping.
//!
//! Each buffer period the loop hands the caller's callback a zeroed
//! 1024-sample output view, takes the filled view back, and encodes it as
//! the little-endian bytes the audio device file consumes. The loop here is
//! bounded and returns the bytes it produced; the unverified glue around the
//! crate owns the device file and drives the loop forever, one buffer period
//! at a time.

use vstd::prelude::*;

use crate::buffer::{stream_data_samples, OutputBuffer, StreamData, UnknownTypeOutputBuffer};
use crate::device::Device;
use crate::encode::{encode_samples, encoded};
use crate::errors::{CreationError, DeviceFileError};
use crate::format::Format;

verus! {

/// Samples handed to the callback per buffer period.
pub const BUFFER_SAMPLES: usize = 1024;

/// Bytes written to the device file per buffer period: two per sample.
pub const BUFFER_BYTES: usize = 2048;

/// The opaque handle of a stream. In this backend it is a singleton: every
/// stream ever built gets the same, indistinguishable handle.
#[derive(Clone, Debug, PartialEq, Eq, Hash, Structural)]
pub struct StreamId;

/// Every two stream handles of this backend are the same value: stream
/// identity is never per-call unique here.
pub proof fn lemma_stream_id_singleton(a: StreamId, b: StreamId)
    ensures
        a == b,
{
}

/// The contents of a fresh buffer period: 1024 zeroed samples.
pub open spec fn zero_samples() -> Seq<i16> {
    Seq::new(BUFFER_SAMPLES as nat, |i: int| 0i16)
}

/// The callback can be invoked on any zeroed output view.
pub open spec fn callback_accepts<F: Fn(StreamId, StreamData) -> StreamData>(callback: F) -> bool {
    forall|id: StreamId, d: StreamData|
        stream_data_samples(d) == zero_samples() ==> #[trigger] call_requires(callback, (id, d))
}

/// Whatever the callback hands back holds as many samples as it was given:
/// the view is filled in place, never grown or shrunk.
pub open spec fn callback_fills_in_place<F: Fn(StreamId, StreamData) -> StreamData>(
    callback: F,
) -> bool {
    forall|a: (StreamId, StreamData), out: StreamData|
        #[trigger] call_ensures(callback, a, out) ==> stream_data_samples(out).len()
            == stream_data_samples(a.1).len()
}

/// A recorded run: one entry per callback invocation, holding the stream
/// data handed in and the stream data handed back.
pub open spec fn valid_run_trace<F: Fn(StreamId, StreamData) -> StreamData>(
    callback: F,
    calls: Seq<(StreamData, StreamData)>,
) -> bool {
    forall|k: int|
        0 <= k < calls.len() ==> (#[trigger] call_ensures(
            callback,
            (StreamId, calls[k].0),
            calls[k].1,
        )) && stream_data_samples(calls[k].0) == zero_samples()
}

/// The bytes the run loop writes for a recorded run: the concatenated
/// encodings of what each invocation handed back, in invocation order.
pub open spec fn trace_bytes(calls: Seq<(StreamData, StreamData)>) -> Seq<u8>
    decreases calls.len(),
{
    if calls.len() == 0 {
        Seq::empty()
    } else {
        trace_bytes(calls.drop_last()) + encoded(stream_data_samples(calls.last().1))
    }
}

/// What the run loop guarantees of its output: some sequence of callback
/// invocations, each handed a zeroed 1024-sample view, produced exactly
/// these bytes, in invocation order.
pub open spec fn run_produces<F: Fn(StreamId, StreamData) -> StreamData>(
    callback: F,
    iterations: nat,
    bytes: Seq<u8>,
) -> bool {
    exists|calls: Seq<(StreamData, StreamData)>|
        calls.len() == iterations && #[trigger] valid_run_trace(callback, calls) && bytes
            == trace_bytes(calls)
}

/// Owner of the run loop and of the (unenforced) stream lifecycle calls.
pub struct EventLoop;

impl EventLoop {
    /// A fresh event loop.
    pub fn new() -> EventLoop {
        EventLoop
    }

    /// Builds an input stream for the given device and format. Nothing is
    /// validated: the call always succeeds with the singleton handle.
    pub fn build_input_stream(&self, _device: &Device, _format: &Format) -> (r: Result<
        StreamId,
        CreationError,
    >)
        ensures
            r == Ok::<StreamId, CreationError>(StreamId),
    {
        Ok(StreamId)
    }

    /// Builds an output stream for the given device and format. Nothing is
    /// validated: the call always succeeds with the singleton handle.
    pub fn build_output_stream(&self, _device: &Device, _format: &Format) -> (r: Result<
        StreamId,
        CreationError,
    >)
        ensures
            r == Ok::<StreamId, CreationError>(StreamId),
    {
        Ok(StreamId)
    }

    /// Tears a stream down. This backend tracks no per-stream state, so any
    /// handle is accepted and nothing happens.
    pub fn destroy_stream(&self, _stream: StreamId) {
    }

    /// Resumes a stream. This backend tracks no per-stream state, so any
    /// handle is accepted and nothing happens.
    pub fn play_stream(&self, _stream: StreamId) {
    }

    /// Suspends a stream. This backend tracks no per-stream state, so any
    /// handle is accepted and nothing happens.
    pub fn pause_stream(&self, _stream: StreamId) {
    }

    /// Drives the run loop for `iterations` buffer periods and returns the
    /// bytes it would write to the device file: per period, the callback is
    /// handed a zeroed 1024-sample view and the view it hands back is
    /// encoded as 2048 little-endian bytes, in invocation order.
    pub fn run_bounded<F: Fn(StreamId, StreamData) -> StreamData>(
        &self,
        callback: F,
        iterations: usize,
    ) -> (sink: Vec<u8>)
        requires
            callback_accepts(callback),
            callback_fills_in_place(callback),
            BUFFER_BYTES * iterations <= usize::MAX,
        ensures
            sink@.len() == BUFFER_BYTES * iterations,
            run_produces(callback, iterations as nat, sink@),
    {
        let mut sink: Vec<u8> = Vec::new();
        let ghost mut calls: Seq<(StreamData, StreamData)> = Seq::empty();
        let mut k: usize = 0;
        while k < iterations
            invariant
                callback_accepts(callback),
                callback_fills_in_place(callback),
                BUFFER_BYTES * iterations <= usize::MAX,
                k <= iterations,
                calls.len() == k,
                valid_run_trace(callback, calls),
                sink@ == trace_bytes(calls),
                sink@.len() == BUFFER_BYTES * k,
            decreases iterations - k,
        {
            let data = StreamData::Output {
                buffer: UnknownTypeOutputBuffer::I16(OutputBuffer::new(zero_buffer())),
            };
            let ghost din = data;
            let out = callback(StreamId, data);
            let ghost dout = out;
            let samples = match out {
                StreamData::Output { buffer: UnknownTypeOutputBuffer::I16(b) } => b.finish(),
            };
            let mut bytes = encode_samples(&samples);
            sink.append(&mut bytes);
            proof {
                let prev = calls;
                calls = calls.push((din, dout));
                assert(calls.drop_last() =~= prev);
            }
            k = k + 1;
        }
        sink
    }

    /// The run loop's entry decision: when the device file failed to open,
    /// the loop refuses to start and no callback is ever invoked; otherwise
    /// it behaves as `run_bounded`.
    pub fn run_guarded<F: Fn(StreamId, StreamData) -> StreamData>(
        &self,
        device_file: Result<(), DeviceFileError>,
        callback: F,
        iterations: usize,
    ) -> (r: Result<Vec<u8>, DeviceFileError>)
        requires
            callback_accepts(callback),
            callback_fills_in_place(callback),
            BUFFER_BYTES * iterations <= usize::MAX,
        ensures
            device_file matches Err(e) ==> r == Err::<Vec<u8>, DeviceFileError>(e),
            device_file matches Ok(_) ==> r matches Ok(sink) && sink@.len() == BUFFER_BYTES
                * iterations && run_produces(callback, iterations as nat, sink@),
    {
        match device_file {
            Err(e) => Err(e),
            Ok(_) => Ok(self.run_bounded(callback, iterations)),
        }
    }
}

/// A fresh buffer period: 1024 zeroed samples.
fn zero_buffer() -> (v: Vec<i16>)
    ensures
        v@ == zero_samples(),
{
    let mut v: Vec<i16> = Vec::new();
    let mut i: usize = 0;
    while i < BUFFER_SAMPLES
        invariant
            i <= BUFFER_SAMPLES,
            v@.len() == i,
            forall|j: int| 0 <= j < i ==> v@[j] == 0i16,
        decreases BUFFER_SAMPLES - i,
    {
        v.push(0);
        i = i + 1;
    }
    proof {
        assert(v@ =~= zero_samples());
    }
    v
}

} // verus!
