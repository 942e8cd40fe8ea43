//! Buffer views handed to the run-loop callback, and the tagged value that
//! carries them.
//!
//! A view owns its samples for the duration of one callback invocation: the
//! run loop builds a zeroed view, moves it into the callback, and takes the
//! filled samples back from the value the callback returns.

use vstd::prelude::*;

verus! {

/// A window over samples that a callback may read.
pub struct InputBuffer<T> {
    data: Vec<T>,
}

impl<T> View for InputBuffer<T> {
    type V = Seq<T>;

    closed spec fn view(&self) -> Seq<T> {
        self.data@
    }
}

impl<T> InputBuffer<T> {
    /// Wraps a sample sequence as a readable view.
    pub fn new(data: Vec<T>) -> (r: InputBuffer<T>)
        ensures
            r@ == data@,
    {
        InputBuffer { data }
    }

    /// The samples under the view.
    pub fn buffer(&self) -> (r: &Vec<T>)
        ensures
            r@ == self@,
    {
        &self.data
    }

    /// Releases the view at the end of a callback invocation.
    pub fn finish(self) {
    }
}

/// A window over samples that a callback must fill.
pub struct OutputBuffer<T> {
    data: Vec<T>,
}

impl<T> View for OutputBuffer<T> {
    type V = Seq<T>;

    closed spec fn view(&self) -> Seq<T> {
        self.data@
    }
}

impl<T> OutputBuffer<T> {
    /// Wraps a sample sequence as a fillable view.
    pub fn new(data: Vec<T>) -> (r: OutputBuffer<T>)
        ensures
            r@ == data@,
    {
        OutputBuffer { data }
    }

    /// The samples under the view, open for in-place mutation.
    pub fn buffer(&mut self) -> (r: &mut Vec<T>)
        ensures
            (*r)@ == old(self)@,
            final(self)@ == (*final(r))@,
    {
        &mut self.data
    }

    /// How many samples the view holds.
    pub fn len(&self) -> (n: usize)
        ensures
            n == self@.len(),
    {
        self.data.len()
    }

    /// Overwrites the sample at position `i`.
    pub fn set(&mut self, i: usize, value: T)
        requires
            i < old(self)@.len(),
        ensures
            final(self)@ == old(self)@.update(i as int, value),
    {
        self.data[i] = value;
    }

    /// Releases the view at the end of a callback invocation and hands the
    /// filled samples back.
    pub fn finish(self) -> (samples: Vec<T>)
        ensures
            samples@ == self@,
    {
        self.data
    }
}

impl<T: Copy> OutputBuffer<T> {
    /// Overwrites every sample in the view with `value`.
    pub fn fill(&mut self, value: T)
        ensures
            final(self)@.len() == old(self)@.len(),
            forall|j: int| 0 <= j < final(self)@.len() ==> final(self)@[j] == value,
    {
        let mut i: usize = 0;
        while i < self.data.len()
            invariant
                i <= self.data@.len(),
                self.data@.len() == old(self)@.len(),
                forall|j: int| 0 <= j < i ==> self.data@[j] == value,
            decreases self.data@.len() - i,
        {
            self.data[i] = value;
            i = i + 1;
        }
    }
}

/// The sample encodings a filled output view can carry. The run loop only
/// ever produces 16-bit signed views.
pub enum UnknownTypeOutputBuffer {
    I16(OutputBuffer<i16>),
}

/// The tagged buffer-direction value a callback receives. This backend only
/// models output streams.
pub enum StreamData {
    Output { buffer: UnknownTypeOutputBuffer },
}

/// The samples carried by a stream-data value.
pub open spec fn stream_data_samples(d: StreamData) -> Seq<i16> {
    match d {
        StreamData::Output { buffer: UnknownTypeOutputBuffer::I16(b) } => b@,
    }
}

} // verus!
