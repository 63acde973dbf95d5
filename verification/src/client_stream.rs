use vstd::prelude::*;

verus! {

/// What a stream's callback thread received from the server.
#[derive(Clone, Copy, Debug, PartialEq, Eq, Structural)]
pub enum StreamEvent {
    /// Receiving failed; the thread tries again.
    ReceiveFailed,
    /// The server destroyed the stream.
    Destroyed,
    /// The server asks for `nframes` frames of `frame_size` bytes each.
    DataCallback { nframes: usize, frame_size: usize },
    /// The stream changed state.
    StateCallback(i32),
    /// Any other message, which the thread ignores.
    Other,
}

/// What the callback thread does next.
#[derive(Clone, Copy, Debug, PartialEq, Eq, Structural)]
pub enum StreamAction {
    /// Wait for the next message.
    Continue,
    /// Leave the thread.
    Exit,
    /// Run the data callback for `nframes` frames into a buffer of
    /// `buffer_len` bytes, then reply with what it produced.
    RunData { nframes: usize, buffer_len: usize },
    /// Run the state callback with this state.
    RunState(i32),
}

/// The request fits the machine's address space.
pub open spec fn event_fits(ev: StreamEvent) -> bool {
    ev matches StreamEvent::DataCallback { nframes, frame_size } ==> nframes * frame_size
        <= usize::MAX
}

/// One turn of a stream's callback thread: it leaves when the stream is
/// destroyed, runs the callbacks the server asks for, and otherwise waits
/// for the next message.
#[verifier::allow_in_spec]
pub fn stream_step(ev: StreamEvent) -> StreamAction
    requires
        event_fits(ev),
    returns
        (match ev {
            StreamEvent::ReceiveFailed => StreamAction::Continue,
            StreamEvent::Destroyed => StreamAction::Exit,
            StreamEvent::DataCallback { nframes, frame_size } => StreamAction::RunData {
                nframes,
                buffer_len: (nframes * frame_size) as usize,
            },
            StreamEvent::StateCallback(state) => StreamAction::RunState(state),
            StreamEvent::Other => StreamAction::Continue,
        }),
{
    match ev {
        StreamEvent::ReceiveFailed => StreamAction::Continue,
        StreamEvent::Destroyed => StreamAction::Exit,
        StreamEvent::DataCallback { nframes, frame_size } => StreamAction::RunData {
            nframes,
            buffer_len: nframes * frame_size,
        },
        StreamEvent::StateCallback(state) => StreamAction::RunState(state),
        StreamEvent::Other => StreamAction::Continue,
    }
}

/// Bytes sent back after the data callback produced `frames` frames of
/// `frame_size` bytes into a buffer of `buffer_len` bytes: what was produced,
/// but never more than the buffer holds.
pub fn data_reply_len(frames: usize, frame_size: usize, buffer_len: usize) -> (len: usize)
    requires
        frames * frame_size <= usize::MAX,
    ensures
        len == if frames * frame_size <= buffer_len {
            frames * frame_size
        } else {
            buffer_len as int
        },
{
    let produced = frames * frame_size;
    if produced <= buffer_len {
        produced
    } else {
        buffer_len
    }
}

/// The only message that ends a callback thread is the stream's destruction.
pub proof fn lemma_only_destruction_exits(ev: StreamEvent)
    ensures
        stream_step(ev) == StreamAction::Exit <==> ev == StreamEvent::Destroyed,
{
}

} // verus!
