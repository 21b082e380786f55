//! The GPU-batched recognizer session and its queue protocol.
//!
//! A batch recognizer submits audio chunks to the engine and drains
//! completed results from an internal queue one at a time, instead of
//! producing a result per call.  The engine gives no protection against
//! draining an empty queue (its behavior is undefined there), so the
//! session tracks on this side how many chunks were submitted and how many
//! results were consumed, and popping requires that a submitted chunk is
//! still unconsumed.
use crate::errors::AcceptWaveformError;
use crate::handle::NativeHandle;
use crate::recognition::waveform_len_to_native;
use vstd::prelude::*;

verus! {

/// The main object which processes data using GPU inferencing.  Takes audio
/// as input and queues decoded results.
///
/// Concurrent use of one session must be externally serialized, exactly as
/// for the streaming recognizer.
#[derive(Debug)]
pub struct BatchRecognizer {
    handle: NativeHandle,
    nlsml: bool,
    finished: bool,
    submitted: u64,
    consumed: u64,
}

impl BatchRecognizer {
    /// The address of the wrapped native handle.
    pub closed spec fn addr_spec(&self) -> usize {
        self.handle.addr_spec()
    }

    /// Whether NLSML markup output is enabled.
    pub closed spec fn nlsml_spec(&self) -> bool {
        self.nlsml
    }

    /// Whether the stream has been closed with [`Self::finish_stream`].
    pub closed spec fn finished_spec(&self) -> bool {
        self.finished
    }

    /// How many chunks have been submitted to the engine.
    pub closed spec fn submitted_spec(&self) -> u64 {
        self.submitted
    }

    /// How many results have been consumed from the queue.
    pub closed spec fn consumed_spec(&self) -> u64 {
        self.consumed
    }

    #[verifier::type_invariant]
    spec fn wf(self) -> bool {
        self.consumed <= self.submitted
    }

    /// Wraps the validated handle of a freshly created native batch
    /// recognizer: nothing submitted, nothing consumed, stream open.
    pub fn new(handle: NativeHandle) -> (r: BatchRecognizer)
        ensures
            r.addr_spec() == handle.addr_spec(),
            !r.nlsml_spec(),
            !r.finished_spec(),
            r.submitted_spec() == 0,
            r.consumed_spec() == 0,
    {
        BatchRecognizer { handle, nlsml: false, finished: false, submitted: 0, consumed: 0 }
    }

    /// The wrapped address, always non-null.
    pub fn addr(&self) -> (r: usize)
        ensures
            r == self.addr_spec(),
            r != 0,
    {
        self.handle.addr()
    }

    /// Whether the stream has been closed with [`Self::finish_stream`].
    pub fn stream_finished(&self) -> (b: bool)
        ensures
            b == self.finished_spec(),
    {
        self.finished
    }

    /// How many chunks have been submitted to the engine so far.
    pub fn submitted_chunks(&self) -> (r: u64)
        ensures
            r == self.submitted_spec(),
    {
        self.submitted
    }

    /// Enables or disables NLSML markup in the output.
    pub fn set_nlsml(&mut self, enable: bool)
        ensures
            final(self).nlsml_spec() == enable,
            final(self).addr_spec() == old(self).addr_spec(),
            final(self).finished_spec() == old(self).finished_spec(),
            final(self).submitted_spec() == old(self).submitted_spec(),
            final(self).consumed_spec() == old(self).consumed_spec(),
    {
        proof {
            use_type_invariant(&*self);
        }
        self.nlsml = enable;
    }

    /// The validation and bookkeeping around submitting one chunk of audio:
    /// converts the chunk's byte count to the native length field, and on
    /// success counts the chunk as submitted.  Fails, changing nothing,
    /// exactly when the count does not fit the native length field; the
    /// chunk must not be submitted in that case.  Submitting after the
    /// stream was finished is a caller violation, kept out by contract.
    pub fn accept_waveform_len(&mut self, len: usize) -> (r: Result<i32, AcceptWaveformError>)
        requires
            !old(self).finished_spec(),
            old(self).submitted_spec() < u64::MAX,
        ensures
            len <= i32::MAX <==> r is Ok,
            r matches Ok(n) ==> n == len,
            r matches Err(e) ==> e == AcceptWaveformError::BufferTooLong(len),
            final(self).submitted_spec() == if r is Ok {
                old(self).submitted_spec() + 1
            } else {
                old(self).submitted_spec() as int
            },
            final(self).addr_spec() == old(self).addr_spec(),
            final(self).nlsml_spec() == old(self).nlsml_spec(),
            final(self).finished_spec() == old(self).finished_spec(),
            final(self).consumed_spec() == old(self).consumed_spec(),
    {
        proof {
            use_type_invariant(&*self);
        }
        let r = waveform_len_to_native(len);
        if r.is_ok() {
            self.submitted = self.submitted + 1;
        }
        r
    }

    /// Signals end-of-input for this session; no more chunks are expected
    /// afterwards.
    pub fn finish_stream(&mut self)
        ensures
            final(self).finished_spec(),
            final(self).addr_spec() == old(self).addr_spec(),
            final(self).nlsml_spec() == old(self).nlsml_spec(),
            final(self).submitted_spec() == old(self).submitted_spec(),
            final(self).consumed_spec() == old(self).consumed_spec(),
    {
        proof {
            use_type_invariant(&*self);
        }
        self.finished = true;
    }

    /// How many submitted chunks have not had their result consumed yet.
    /// Peeking or popping the result queue is allowed only while this is
    /// positive.
    pub fn unconsumed(&self) -> (r: u64)
        ensures
            r == self.submitted_spec() - self.consumed_spec(),
    {
        proof {
            use_type_invariant(self);
        }
        self.submitted - self.consumed
    }

    /// Counts the head of the result queue as consumed.  Popping an empty
    /// queue is undefined in the native layer, so a still-unconsumed
    /// submitted chunk is required.
    pub fn pop(&mut self)
        requires
            old(self).consumed_spec() < old(self).submitted_spec(),
        ensures
            final(self).consumed_spec() == old(self).consumed_spec() + 1,
            final(self).addr_spec() == old(self).addr_spec(),
            final(self).nlsml_spec() == old(self).nlsml_spec(),
            final(self).finished_spec() == old(self).finished_spec(),
            final(self).submitted_spec() == old(self).submitted_spec(),
    {
        proof {
            use_type_invariant(&*self);
        }
        self.consumed = self.consumed + 1;
    }
}

/// Interprets the pending-chunk count the native layer reported: a count is
/// never negative, so a negative report is rejected rather than reinterpreted.
pub fn pending_chunks_from_native(value: i32) -> (r: Option<u32>)
    ensures
        r == if value >= 0 {
            Some(value as u32)
        } else {
            None::<u32>
        },
{
    if value >= 0 {
        Some(value as u32)
    } else {
        None
    }
}

} // verus!
