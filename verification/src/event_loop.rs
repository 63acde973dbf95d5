use vstd::prelude::*;
use crate::connection::ConnOutcome;

verus! {

/// The poll token reserved for the event loop's own waker.
pub const WAKE_TOKEN: usize = usize::MAX;

/// Connections held before the connection table has to grow.
pub const EVENT_LOOP_INITIAL_CLIENTS: usize = 64;

/// Events taken from the poller in one step.
pub const EVENT_LOOP_EVENTS_PER_ITERATION: usize = 256;

/// Capacity of each connection buffer.
pub const IPC_CLIENT_BUFFER_SIZE: usize = 16384;

/// Whom a readiness event is for.
#[derive(Clone, Copy, Debug, PartialEq, Eq, Structural)]
pub enum EventTarget {
    /// The waker: requests may be waiting.
    Wake,
    /// The connection registered under this key.
    Connection(usize),
}

/// The waker's token is for the waker; any other token names a connection.
#[verifier::allow_in_spec]
pub fn event_target(token: usize) -> EventTarget
    returns
        (if token == WAKE_TOKEN {
            EventTarget::Wake
        } else {
            EventTarget::Connection(token)
        }),
{
    if token == WAKE_TOKEN {
        EventTarget::Wake
    } else {
        EventTarget::Connection(token)
    }
}

/// The poll token of the connection stored under `key` in the connection
/// table; the waker's token is never handed to a connection.
pub fn connection_token(key: usize) -> (token: usize)
    requires
        key != WAKE_TOKEN,
    ensures
        token == key,
        token != WAKE_TOKEN,
        event_target(token) == EventTarget::Connection(key),
{
    key
}

/// Whether a connection is to be removed after handling a readiness event:
/// when it reports itself finished, or when handling failed.
pub fn connection_finished(outcome: ConnOutcome) -> (r: bool)
    ensures
        r == match outcome {
            ConnOutcome::Done(done) => done,
            ConnOutcome::Failed => true,
        },
{
    match outcome {
        ConnOutcome::Done(done) => done,
        ConnOutcome::Failed => true,
    }
}

/// The kinds of request another thread sends the event loop.
#[derive(Clone, Copy, Debug, PartialEq, Eq, Structural)]
pub enum LoopRequest {
    AddConnection,
    WakeConnection,
    Shutdown,
}

/// Whether the loop goes on after a request: a shutdown ends the loop at
/// once, leaving later requests untaken; every other request is handled and
/// the loop goes on.
#[verifier::allow_in_spec]
pub fn loop_continues(request: LoopRequest) -> bool
    returns
        request != LoopRequest::Shutdown,
{
    request != LoopRequest::Shutdown
}

} // verus!
