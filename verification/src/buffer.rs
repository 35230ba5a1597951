//! The shared sample accumulator that the capture callback fills and the
//! controlling side drains after a recording session ends.

use vstd::prelude::*;

verus! {

/// An ordered, append-only accumulator of 16-bit PCM samples.
///
/// The capture side appends chunks in temporal order; the controlling side
/// drains the whole contents at once when a recording stops. Draining returns
/// exactly the samples appended since the last drain (or since creation), in
/// order, and leaves the buffer empty: nothing is lost and nothing is
/// duplicated. Callers that share one buffer between a producer and a
/// consumer serialize the calls with a lock of their own; every operation
/// here is a single short pass over the data.
#[derive(Debug)]
pub struct SampleBuffer {
    samples: Vec<i16>,
}

impl View for SampleBuffer {
    type V = Seq<i16>;

    closed spec fn view(&self) -> Seq<i16> {
        self.samples@
    }
}

impl SampleBuffer {
    /// Creates an empty buffer.
    pub fn new() -> (buf: SampleBuffer)
        ensures
            buf@ == Seq::<i16>::empty(),
    {
        SampleBuffer { samples: Vec::new() }
    }

    /// Appends a chunk of samples at the end, keeping temporal order.
    pub fn append(&mut self, chunk: &[i16])
        ensures
            final(self)@ == old(self)@ + chunk@,
    {
        self.samples.extend_from_slice(chunk);
    }

    /// Returns the number of samples currently stored.
    pub fn len(&self) -> (n: usize)
        ensures
            n == self@.len(),
    {
        self.samples.len()
    }

    /// Returns all stored samples, in the order they were appended, and
    /// leaves the buffer empty.
    pub fn drain(&mut self) -> (out: Vec<i16>)
        ensures
            out@ == old(self)@,
            final(self)@ == Seq::<i16>::empty(),
    {
        let mut out: Vec<i16> = Vec::new();
        std::mem::swap(&mut out, &mut self.samples);
        out
    }

    /// Discards all stored samples.
    pub fn clear(&mut self)
        ensures
            final(self)@ == Seq::<i16>::empty(),
    {
        self.samples.clear();
    }
}

} // verus!
