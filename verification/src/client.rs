use vstd::prelude::*;
use crate::messages::{ClientMessage, Device, StreamParameters};
use crate::server::{backend_call, reply_for, value_fits, BackendValue, ServerRequest};

verus! {

/// An operation a client remotes to the server: one of the context's, or
/// one of a stream's, named by the stream's token.
#[derive(Clone, Copy, Debug, PartialEq, Eq, Structural)]
pub enum ClientOp {
    Disconnect,
    MaxChannelCount,
    MinLatency(StreamParameters),
    PreferredSampleRate,
    PreferredChannelLayout,
    StreamDestroy(usize),
    StreamStart(usize),
    StreamStop(usize),
    StreamPosition(usize),
    StreamLatency(usize),
    StreamSetVolume(usize),
    StreamSetPanning(usize),
    StreamCurrentDevice(usize),
}

/// What the client takes from the server's reply.
#[derive(Debug)]
pub enum ClientValue {
    /// An acknowledgement.
    Unit,
    Count(u32),
    Layout(i32),
    Position(u64),
    Device(Device),
}

/// The request the client sends for an operation.  Volume and panning values
/// travel beside the request.
#[verifier::allow_in_spec]
pub fn client_request(op: ClientOp) -> ServerRequest
    returns
        (match op {
            ClientOp::Disconnect => ServerRequest::ClientDisconnect,
            ClientOp::MaxChannelCount => ServerRequest::ContextGetMaxChannelCount,
            ClientOp::MinLatency(p) => ServerRequest::ContextGetMinLatency(p),
            ClientOp::PreferredSampleRate => ServerRequest::ContextGetPreferredSampleRate,
            ClientOp::PreferredChannelLayout => ServerRequest::ContextGetPreferredChannelLayout,
            ClientOp::StreamDestroy(t) => ServerRequest::StreamDestroy(t),
            ClientOp::StreamStart(t) => ServerRequest::StreamStart(t),
            ClientOp::StreamStop(t) => ServerRequest::StreamStop(t),
            ClientOp::StreamPosition(t) => ServerRequest::StreamGetPosition(t),
            ClientOp::StreamLatency(t) => ServerRequest::StreamGetLatency(t),
            ClientOp::StreamSetVolume(t) => ServerRequest::StreamSetVolume(t),
            ClientOp::StreamSetPanning(t) => ServerRequest::StreamSetPanning(t),
            ClientOp::StreamCurrentDevice(t) => ServerRequest::StreamGetCurrentDevice(t),
        }),
{
    match op {
        ClientOp::Disconnect => ServerRequest::ClientDisconnect,
        ClientOp::MaxChannelCount => ServerRequest::ContextGetMaxChannelCount,
        ClientOp::MinLatency(p) => ServerRequest::ContextGetMinLatency(p),
        ClientOp::PreferredSampleRate => ServerRequest::ContextGetPreferredSampleRate,
        ClientOp::PreferredChannelLayout => ServerRequest::ContextGetPreferredChannelLayout,
        ClientOp::StreamDestroy(t) => ServerRequest::StreamDestroy(t),
        ClientOp::StreamStart(t) => ServerRequest::StreamStart(t),
        ClientOp::StreamStop(t) => ServerRequest::StreamStop(t),
        ClientOp::StreamPosition(t) => ServerRequest::StreamGetPosition(t),
        ClientOp::StreamLatency(t) => ServerRequest::StreamGetLatency(t),
        ClientOp::StreamSetVolume(t) => ServerRequest::StreamSetVolume(t),
        ClientOp::StreamSetPanning(t) => ServerRequest::StreamSetPanning(t),
        ClientOp::StreamCurrentDevice(t) => ServerRequest::StreamGetCurrentDevice(t),
    }
}

/// Takes the value of the reply to `op`: each operation expects its own
/// kind of reply, and any other reply, an error among them, gives `None`
/// (the client aborts on it).
#[verifier::allow_in_spec]
pub fn reply_value(op: ClientOp, reply: ClientMessage) -> Option<ClientValue>
    returns
        (match (op, reply) {
            (ClientOp::Disconnect, ClientMessage::ClientDisconnected) => Some(ClientValue::Unit),
            (ClientOp::MaxChannelCount, ClientMessage::ContextMaxChannelCount(n)) => Some(ClientValue::Count(n)),
            (ClientOp::MinLatency(_), ClientMessage::ContextMinLatency(n)) => Some(ClientValue::Count(n)),
            (ClientOp::PreferredSampleRate, ClientMessage::ContextPreferredSampleRate(n)) => Some(ClientValue::Count(n)),
            (ClientOp::PreferredChannelLayout, ClientMessage::ContextPreferredChannelLayout(l)) => Some(ClientValue::Layout(l)),
            (ClientOp::StreamDestroy(_), ClientMessage::StreamDestroyed) => Some(ClientValue::Unit),
            (ClientOp::StreamStart(_), ClientMessage::StreamStarted) => Some(ClientValue::Unit),
            (ClientOp::StreamStop(_), ClientMessage::StreamStopped) => Some(ClientValue::Unit),
            (ClientOp::StreamPosition(_), ClientMessage::StreamPosition(p)) => Some(ClientValue::Position(p)),
            (ClientOp::StreamLatency(_), ClientMessage::StreamLatency(n)) => Some(ClientValue::Count(n)),
            (ClientOp::StreamSetVolume(_), ClientMessage::StreamVolumeSet()) => Some(ClientValue::Unit),
            (ClientOp::StreamSetPanning(_), ClientMessage::StreamPanningSet()) => Some(ClientValue::Unit),
            (ClientOp::StreamCurrentDevice(_), ClientMessage::StreamCurrentDevice(d)) => Some(ClientValue::Device(d)),
            _ => None,
        }),
{
    match (op, reply) {
        (ClientOp::Disconnect, ClientMessage::ClientDisconnected) => Some(ClientValue::Unit),
        (ClientOp::MaxChannelCount, ClientMessage::ContextMaxChannelCount(n)) => Some(ClientValue::Count(n)),
        (ClientOp::MinLatency(_), ClientMessage::ContextMinLatency(n)) => Some(ClientValue::Count(n)),
        (ClientOp::PreferredSampleRate, ClientMessage::ContextPreferredSampleRate(n)) => Some(ClientValue::Count(n)),
        (ClientOp::PreferredChannelLayout, ClientMessage::ContextPreferredChannelLayout(l)) => Some(ClientValue::Layout(l)),
        (ClientOp::StreamDestroy(_), ClientMessage::StreamDestroyed) => Some(ClientValue::Unit),
        (ClientOp::StreamStart(_), ClientMessage::StreamStarted) => Some(ClientValue::Unit),
        (ClientOp::StreamStop(_), ClientMessage::StreamStopped) => Some(ClientValue::Unit),
        (ClientOp::StreamPosition(_), ClientMessage::StreamPosition(p)) => Some(ClientValue::Position(p)),
        (ClientOp::StreamLatency(_), ClientMessage::StreamLatency(n)) => Some(ClientValue::Count(n)),
        (ClientOp::StreamSetVolume(_), ClientMessage::StreamVolumeSet()) => Some(ClientValue::Unit),
        (ClientOp::StreamSetPanning(_), ClientMessage::StreamPanningSet()) => Some(ClientValue::Unit),
        (ClientOp::StreamCurrentDevice(_), ClientMessage::StreamCurrentDevice(d)) => Some(ClientValue::Device(d)),
        _ => None,
    }
}

/// The value a successful backend call hands the client.
pub open spec fn client_value_of(v: BackendValue) -> ClientValue {
    match v {
        BackendValue::Unit => ClientValue::Unit,
        BackendValue::Started => ClientValue::Unit,
        BackendValue::Stopped => ClientValue::Unit,
        BackendValue::ChannelCount(n) => ClientValue::Count(n),
        BackendValue::MinLatency(n) => ClientValue::Count(n),
        BackendValue::SampleRate(n) => ClientValue::Count(n),
        BackendValue::Latency(n) => ClientValue::Count(n),
        BackendValue::Position(p) => ClientValue::Position(p),
        BackendValue::Layout(l) => ClientValue::Layout(l),
        BackendValue::Device(d) => ClientValue::Device(d),
    }
}

/// The client and the server agree on every operation: when the server has
/// a context and the backend call succeeds, the reply it builds for the
/// client's request is the one the client expects, and it carries the
/// backend's value.  Starting, stopping and destroying a stream and
/// disconnecting are acknowledged whatever the backend call gave.
pub proof fn lemma_server_answers_client(op: ClientOp, v: BackendValue, code: i32)
    requires
        value_fits(backend_call(true, &client_request(op)), v),
    ensures
        reply_value(op, reply_for(true, &client_request(op), Ok(v)))
            == Some(client_value_of(v)),
        op is Disconnect || op is StreamDestroy || op is StreamStart || op is StreamStop
            ==> reply_value(op, reply_for(true, &client_request(op), Err(code)))
            == Some(ClientValue::Unit),
{
}

} // verus!
