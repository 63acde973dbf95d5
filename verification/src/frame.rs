use vstd::prelude::*;

verus! {

/// Capacity reserved for each buffer, and before each read.
pub const INITIAL_CAPACITY: usize = 1024;

/// Above this many buffered outbound bytes a send first tries to flush.
pub const BACKPRESSURE_THRESHOLD: usize = 4096;

/// The decision state of a framed transport: readiness of the decoder and
/// the sizes of the outbound data held in the write buffer and in the frame
/// being written out.
#[derive(Clone, Copy, Debug, PartialEq, Eq, Structural)]
pub struct FramedState {
    /// The decoder may find a frame in the read buffer.
    pub is_readable: bool,
    /// The transport reported end of file.  With `is_readable` cleared as
    /// well, the last frame has been decoded and the stream is over.
    pub eof: bool,
    /// Bytes encoded but not yet moved into a frame.
    pub write_buf_len: usize,
    /// Bytes of the frame being written that are not written yet.
    pub frame_remaining: Option<usize>,
}

/// What the read side does next.
#[derive(Clone, Copy, Debug, PartialEq, Eq, Structural)]
pub enum ReadAction {
    /// Decode the last frame after end of file.
    DecodeEof,
    /// Try to decode a frame from the read buffer.
    Decode,
    /// Read more data from the transport into the read buffer.
    Read,
    /// The transport has ended and its last frame has been taken: the stream
    /// of frames is over.
    Terminated,
}

/// What a send does about buffered outbound data.
#[derive(Clone, Copy, Debug, PartialEq, Eq, Structural)]
pub enum SendDecision {
    /// Encode the item into the write buffer.
    Accept,
    /// Too much is buffered: try to flush before encoding.
    FlushFirst,
    /// Still too much is buffered after the flush attempt: refuse the item.
    Refuse,
}

/// What the write side does next.
#[derive(Clone, Copy, Debug, PartialEq, Eq, Structural)]
pub enum WriteAction {
    /// Write from the current frame, which holds this many unwritten bytes.
    Write(usize),
    /// Everything buffered has been written.
    Done,
}

/// A frame in progress is never empty.
pub open spec fn write_side_wf(s: FramedState) -> bool {
    s.frame_remaining matches Some(n) ==> n > 0
}

/// The state after the write buffer is moved into a frame, when no frame is
/// in progress and there is something to move.
pub open spec fn spec_set_frame(s: FramedState) -> FramedState {
    if s.write_buf_len == 0 {
        s
    } else {
        FramedState { write_buf_len: 0, frame_remaining: Some(s.write_buf_len), ..s }
    }
}

/// A new framed transport: nothing read, nothing buffered.
pub fn framed() -> (s: FramedState)
    ensures
        s == (FramedState { is_readable: false, eof: false, write_buf_len: 0, frame_remaining: None }),
        write_side_wf(s),
{
    FramedState { is_readable: false, eof: false, write_buf_len: 0, frame_remaining: None }
}

impl FramedState {
    /// The next step of the read side.
    #[verifier::allow_in_spec]
    pub fn read_action(&self) -> ReadAction
        returns
            (if self.is_readable {
                if self.eof { ReadAction::DecodeEof } else { ReadAction::Decode }
            } else if self.eof {
                ReadAction::Terminated
            } else {
                ReadAction::Read
            }),
    {
        if self.is_readable {
            if self.eof {
                ReadAction::DecodeEof
            } else {
                ReadAction::Decode
            }
        } else if self.eof {
            ReadAction::Terminated
        } else {
            ReadAction::Read
        }
    }

    /// The final decode after end of file found no frame: the stream is over.
    pub fn on_decode_eof_empty(&mut self)
        requires
            old(self).is_readable,
            old(self).eof,
        ensures
            *final(self) == (FramedState { is_readable: false, ..*old(self) }),
            final(self).read_action() == ReadAction::Terminated,
    {
        self.is_readable = false;
    }

    /// A decode attempt found no complete frame: wait for more data.
    pub fn on_decode_empty(&mut self)
        requires
            old(self).is_readable,
            !old(self).eof,
        ensures
            *final(self) == (FramedState { is_readable: false, ..*old(self) }),
    {
        self.is_readable = false;
    }

    /// A read from the transport gave `n` bytes; zero means end of file.
    pub fn on_read(&mut self, n: usize)
        requires
            !old(self).eof,
        ensures
            *final(self) == (FramedState { is_readable: true, eof: n == 0, ..*old(self) }),
    {
        if n == 0 {
            self.eof = true;
        }
        self.is_readable = true;
    }

    /// Moves the write buffer into a new frame.
    pub fn set_frame(&mut self)
        requires
            old(self).frame_remaining is None,
        ensures
            *final(self) == spec_set_frame(*old(self)),
    {
        if self.write_buf_len == 0 {
            return;
        }
        self.frame_remaining = Some(self.write_buf_len);
        self.write_buf_len = 0;
    }

    /// The next step of the write side: start a frame from the write buffer
    /// when none is in progress, then write it out, or stop when nothing is
    /// left.
    pub fn write_action(&mut self) -> (a: WriteAction)
        ensures
            old(self).frame_remaining is None ==> *final(self) == spec_set_frame(*old(self)),
            old(self).frame_remaining is Some ==> *final(self) == *old(self),
            a == match final(self).frame_remaining {
                Some(n) => WriteAction::Write(n),
                None => WriteAction::Done,
            },
            a == WriteAction::Done ==> final(self).write_buf_len == 0,
            write_side_wf(*old(self)) ==> write_side_wf(*final(self)),
    {
        if self.frame_remaining.is_none() {
            self.set_frame();
        }
        match self.frame_remaining {
            Some(n) => WriteAction::Write(n),
            None => WriteAction::Done,
        }
    }

    /// `n` bytes of the current frame were written; a fully written frame is
    /// dropped.
    pub fn on_written(&mut self, n: usize)
        requires
            old(self).frame_remaining matches Some(m) && n <= m,
        ensures
            final(self).frame_remaining == (if n == old(self).frame_remaining->0 {
                None
            } else {
                Some((old(self).frame_remaining->0 - n) as usize)
            }),
            final(self).write_buf_len == old(self).write_buf_len,
            final(self).is_readable == old(self).is_readable,
            final(self).eof == old(self).eof,
            write_side_wf(*final(self)),
    {
        let m = self.frame_remaining.unwrap();
        if n == m {
            self.frame_remaining = None;
        } else {
            self.frame_remaining = Some(m - n);
        }
    }

    /// Whether buffered data is over the backpressure threshold.
    pub fn over_backpressure(&self) -> (r: bool)
        ensures
            r == (self.write_buf_len > BACKPRESSURE_THRESHOLD),
    {
        self.write_buf_len > BACKPRESSURE_THRESHOLD
    }

    /// What a send does: below the threshold the item is accepted; above it
    /// a flush is tried first, and an item still over the threshold after
    /// that attempt is refused.
    #[verifier::allow_in_spec]
    pub fn send_decision(&self, flush_attempted: bool) -> SendDecision
        returns
            (if self.write_buf_len <= BACKPRESSURE_THRESHOLD {
                SendDecision::Accept
            } else if flush_attempted {
                SendDecision::Refuse
            } else {
                SendDecision::FlushFirst
            }),
    {
        if !self.over_backpressure() {
            SendDecision::Accept
        } else if flush_attempted {
            SendDecision::Refuse
        } else {
            SendDecision::FlushFirst
        }
    }

    /// An item of `n` encoded bytes was appended to the write buffer.
    pub fn on_encoded(&mut self, n: usize)
        requires
            old(self).write_buf_len + n <= usize::MAX,
        ensures
            *final(self) == (FramedState {
                write_buf_len: (old(self).write_buf_len + n) as usize,
                ..*old(self)
            }),
    {
        self.write_buf_len = self.write_buf_len + n;
    }
}

/// The transport is read only before end of file, and every step the read
/// side takes keeps it so.
pub proof fn lemma_read_only_before_eof(s: FramedState)
    ensures
        s.read_action() == ReadAction::Read ==> !s.eof,
        s.read_action() == ReadAction::Terminated ==> s.eof,
{
}

/// Once terminated, the stream stays terminated: no read-side step applies.
pub proof fn lemma_terminated_is_final(s: FramedState)
    requires
        s.read_action() == ReadAction::Terminated,
    ensures
        !s.is_readable,
        s.eof,
{
}

/// After end of file the read side offers one final decode; when it yields
/// nothing the stream is terminated.
pub proof fn lemma_eof_leads_to_termination(s: FramedState)
    requires
        !s.eof,
    ensures
        (FramedState { is_readable: true, eof: true, ..s }).read_action() == ReadAction::DecodeEof,
        (FramedState { is_readable: false, eof: true, ..s }).read_action() == ReadAction::Terminated,
{
}

/// A send is refused only after a flush was tried and data is still over the
/// threshold; a write side that ran to completion never refuses.
pub proof fn lemma_refuse_only_after_flush(s: FramedState, flush_attempted: bool)
    ensures
        s.send_decision(flush_attempted) == SendDecision::Refuse ==> flush_attempted
            && s.write_buf_len > BACKPRESSURE_THRESHOLD,
        s.write_buf_len == 0 ==> s.send_decision(flush_attempted) == SendDecision::Accept,
{
}

/// The outbound bytes behind a framed transport's write side: those already
/// written to the transport, those of the frame in progress, and those still
/// in the write buffer.
pub struct OutboundBytes {
    pub written: Seq<u8>,
    pub frame: Seq<u8>,
    pub buffer: Seq<u8>,
}

/// Everything the transport was given, in the order it was encoded.
pub open spec fn encoded(o: OutboundBytes) -> Seq<u8> {
    o.written + o.frame + o.buffer
}

/// The write side's state counts the bytes of `o`.
pub open spec fn counts(s: FramedState, o: OutboundBytes) -> bool {
    &&& s.write_buf_len == o.buffer.len()
    &&& s.frame_remaining == if o.frame.len() == 0 { None } else { Some(o.frame.len() as usize) }
}

/// An item's bytes appended to the write buffer.
pub open spec fn encode_bytes(o: OutboundBytes, item: Seq<u8>) -> OutboundBytes {
    OutboundBytes { buffer: o.buffer + item, ..o }
}

/// The write buffer taken as the next frame, when no frame is in progress.
pub open spec fn frame_bytes(o: OutboundBytes) -> OutboundBytes {
    if o.frame.len() == 0 {
        OutboundBytes { frame: o.buffer, buffer: Seq::empty(), ..o }
    } else {
        o
    }
}

/// The first `n` bytes of the frame written to the transport.
pub open spec fn write_bytes(o: OutboundBytes, n: int) -> OutboundBytes {
    OutboundBytes { written: o.written + o.frame.take(n), frame: o.frame.skip(n), ..o }
}

/// Bytes leave in the order they were encoded: encoding appends an item's
/// bytes after everything before it, and neither starting a frame nor
/// writing part of one loses, repeats or reorders a byte.  The write side's
/// lengths follow the bytes through each of these steps.
pub proof fn lemma_bytes_leave_in_order(s: FramedState, o: OutboundBytes, item: Seq<u8>, n: int)
    requires
        counts(s, o),
        s.write_buf_len + item.len() <= usize::MAX,
    ensures
        encoded(encode_bytes(o, item)) == encoded(o) + item,
        counts(FramedState { write_buf_len: (s.write_buf_len + item.len()) as usize, ..s }, encode_bytes(o, item)),
        encoded(frame_bytes(o)) == encoded(o),
        s.frame_remaining is None ==> counts(spec_set_frame(s), frame_bytes(o)),
        0 <= n <= o.frame.len() ==> encoded(write_bytes(o, n)) == encoded(o),
        0 <= n <= o.frame.len() ==> write_bytes(o, n).written == o.written + o.frame.take(n),
        0 <= n <= o.frame.len() ==> counts(
            FramedState {
                frame_remaining: if n == o.frame.len() { None } else { Some((o.frame.len() - n) as usize) },
                ..s
            },
            write_bytes(o, n),
        ),
{
    assert(encoded(encode_bytes(o, item)) =~= encoded(o) + item);
    if o.frame.len() == 0 {
        assert(encoded(frame_bytes(o)) =~= encoded(o));
    }
    if 0 <= n <= o.frame.len() {
        assert(o.frame.take(n) + o.frame.skip(n) =~= o.frame);
        assert(encoded(write_bytes(o, n)) =~= encoded(o));
    }
}

} // verus!
