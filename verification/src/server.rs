use vstd::prelude::*;
use cubeb_core::{Context, Stream};
use slab::Slab;
use std::collections::VecDeque;
use crate::backend::{
    context_max_channel_count, context_min_latency, context_preferred_sample_rate,
    is_backend_error, stream_current_device, stream_latency, stream_position, stream_start,
    stream_stop, stream_tokens, table_get, table_insert, table_remove, BACKEND_NOT_SUPPORTED,
};
use crate::connection::{IoErrorKind, IoResult};
use crate::interest::Interest;
use crate::messages::{
    frame_size_defined, frame_size_in_bytes, spec_params_from, spec_sample_format, spec_sample_size,
    ClientMessage, Device, StreamInitParams, StreamParameters, StreamParams,
};

verus! {

/// The backend's generic error code, answered when no context could be made.
pub const CUBEB_ERROR: i32 = -1;

/// Poll token of the quit signal.
pub const QUIT_TOKEN: usize = usize::MAX - 2;

/// Poll token of the listening socket.
pub const SERVER_TOKEN: usize = usize::MAX - 1;

/// A client request as the server dispatches it.  Volume and panning values
/// are not part of the decision: they travel beside the request to the
/// backend call that uses them.
#[derive(Debug)]
pub enum ServerRequest {
    ClientConnect,
    ClientDisconnect,
    ContextGetBackendId,
    ContextGetMaxChannelCount,
    ContextGetMinLatency(StreamParameters),
    ContextGetPreferredSampleRate,
    ContextGetPreferredChannelLayout,
    StreamInit(StreamInitParams),
    StreamDestroy(usize),
    StreamStart(usize),
    StreamStop(usize),
    StreamGetPosition(usize),
    StreamGetLatency(usize),
    StreamSetVolume(usize),
    StreamSetPanning(usize),
    StreamGetCurrentDevice(usize),
}

/// The backend operation a request needs.
#[derive(Debug, PartialEq, Eq)]
pub enum BackendCall {
    /// The reply needs no backend call.
    NoCall,
    MaxChannelCount,
    MinLatency(StreamParams),
    PreferredSampleRate,
    PreferredChannelLayout,
    /// Create a stream from the request's parameters.
    InitStream,
    /// Drop the stream with this token from the stream table.
    DestroyStream(usize),
    Start(usize),
    Stop(usize),
    Position(usize),
    Latency(usize),
    SetVolume(usize),
    SetPanning(usize),
    CurrentDevice(usize),
}

/// What a backend call gave: a value, or the backend's error code.
#[derive(Debug)]
pub enum BackendValue {
    Unit,
    /// The stream was started.
    Started,
    /// The stream was stopped.
    Stopped,
    ChannelCount(u32),
    MinLatency(u32),
    SampleRate(u32),
    Latency(u32),
    Position(u64),
    Layout(i32),
    Device(Device),
}

/// A connecting client is already connected: the server aborts on it.
pub open spec fn aborts_on(context_ok: bool, req: ServerRequest) -> bool {
    context_ok && req is ClientConnect
}

/// The backend operation that answering `req` needs.  Without a backend
/// context no call is made.
#[verifier::allow_in_spec]
pub fn backend_call(context_ok: bool, req: &ServerRequest) -> BackendCall
    requires
        !aborts_on(context_ok, *req),
    returns
        (if !context_ok {
            BackendCall::NoCall
        } else {
            match *req {
                ServerRequest::ClientConnect => BackendCall::NoCall,
                ServerRequest::ClientDisconnect => BackendCall::NoCall,
                ServerRequest::ContextGetBackendId => BackendCall::NoCall,
                ServerRequest::ContextGetMaxChannelCount => BackendCall::MaxChannelCount,
                ServerRequest::ContextGetMinLatency(p) => BackendCall::MinLatency(spec_params_from(p)),
                ServerRequest::ContextGetPreferredSampleRate => BackendCall::PreferredSampleRate,
                ServerRequest::ContextGetPreferredChannelLayout => BackendCall::PreferredChannelLayout,
                ServerRequest::StreamInit(_) => BackendCall::InitStream,
                ServerRequest::StreamDestroy(t) => BackendCall::DestroyStream(t),
                ServerRequest::StreamStart(t) => BackendCall::Start(t),
                ServerRequest::StreamStop(t) => BackendCall::Stop(t),
                ServerRequest::StreamGetPosition(t) => BackendCall::Position(t),
                ServerRequest::StreamGetLatency(t) => BackendCall::Latency(t),
                ServerRequest::StreamSetVolume(t) => BackendCall::SetVolume(t),
                ServerRequest::StreamSetPanning(t) => BackendCall::SetPanning(t),
                ServerRequest::StreamGetCurrentDevice(t) => BackendCall::CurrentDevice(t),
            }
        }),
{
    if !context_ok {
        return BackendCall::NoCall;
    }
    match req {
        ServerRequest::ClientConnect => BackendCall::NoCall,
        ServerRequest::ClientDisconnect => BackendCall::NoCall,
        ServerRequest::ContextGetBackendId => BackendCall::NoCall,
        ServerRequest::ContextGetMaxChannelCount => BackendCall::MaxChannelCount,
        ServerRequest::ContextGetMinLatency(p) => BackendCall::MinLatency(StreamParams::from(p)),
        ServerRequest::ContextGetPreferredSampleRate => BackendCall::PreferredSampleRate,
        ServerRequest::ContextGetPreferredChannelLayout => BackendCall::PreferredChannelLayout,
        ServerRequest::StreamInit(_) => BackendCall::InitStream,
        ServerRequest::StreamDestroy(t) => BackendCall::DestroyStream(*t),
        ServerRequest::StreamStart(t) => BackendCall::Start(*t),
        ServerRequest::StreamStop(t) => BackendCall::Stop(*t),
        ServerRequest::StreamGetPosition(t) => BackendCall::Position(*t),
        ServerRequest::StreamGetLatency(t) => BackendCall::Latency(*t),
        ServerRequest::StreamSetVolume(t) => BackendCall::SetVolume(*t),
        ServerRequest::StreamSetPanning(t) => BackendCall::SetPanning(*t),
        ServerRequest::StreamGetCurrentDevice(t) => BackendCall::CurrentDevice(*t),
    }
}

/// A backend value has the shape of the call it came from.
pub open spec fn value_fits(call: BackendCall, v: BackendValue) -> bool {
    match call {
        BackendCall::MaxChannelCount => v is ChannelCount,
        BackendCall::MinLatency(_) => v is MinLatency,
        BackendCall::PreferredSampleRate => v is SampleRate,
        BackendCall::Latency(_) => v is Latency,
        BackendCall::PreferredChannelLayout => v is Layout,
        BackendCall::Position(_) => v is Position,
        BackendCall::CurrentDevice(_) => v is Device,
        BackendCall::Start(_) => v is Started,
        BackendCall::Stop(_) => v is Stopped,
        _ => v is Unit,
    }
}

/// The backend result has the shape the request's call gives.
pub open spec fn result_fits(req: ServerRequest, result: Result<BackendValue, i32>) -> bool {
    match result {
        Err(_) => true,
        Ok(v) => value_fits(backend_call(true, &req), v),
    }
}

/// The reply to a request whose backend call (if any) gave `result`.
/// Without a backend context every request is answered with the generic
/// error; a failing call is answered with its error code; a stream that is
/// started, stopped or destroyed is acknowledged whatever the call gave.
/// Stream creation is answered by the stream set-up, not here.
#[verifier::allow_in_spec]
pub fn reply_for(context_ok: bool, req: &ServerRequest, result: Result<BackendValue, i32>) -> ClientMessage
    requires
        !aborts_on(context_ok, *req),
        !(context_ok && req is StreamInit),
        result_fits(*req, result),
    returns
        (if !context_ok {
            ClientMessage::ContextError(CUBEB_ERROR)
        } else {
            match *req {
                ServerRequest::ClientDisconnect => ClientMessage::ClientDisconnected,
                ServerRequest::ContextGetBackendId => ClientMessage::ContextBackendId(),
                ServerRequest::StreamDestroy(_) => ClientMessage::StreamDestroyed,
                ServerRequest::StreamStart(_) => ClientMessage::StreamStarted,
                ServerRequest::StreamStop(_) => ClientMessage::StreamStopped,
                _ => match result {
                    Err(code) => ClientMessage::ContextError(code),
                    Ok(v) => match (*req, v) {
                        (ServerRequest::ContextGetMaxChannelCount, BackendValue::ChannelCount(n)) => ClientMessage::ContextMaxChannelCount(n),
                        (ServerRequest::ContextGetMinLatency(_), BackendValue::MinLatency(n)) => ClientMessage::ContextMinLatency(n),
                        (ServerRequest::ContextGetPreferredSampleRate, BackendValue::SampleRate(n)) => ClientMessage::ContextPreferredSampleRate(n),
                        (ServerRequest::ContextGetPreferredChannelLayout, BackendValue::Layout(l)) => ClientMessage::ContextPreferredChannelLayout(l),
                        (ServerRequest::StreamGetPosition(_), BackendValue::Position(p)) => ClientMessage::StreamPosition(p),
                        (ServerRequest::StreamGetLatency(_), BackendValue::Latency(n)) => ClientMessage::StreamLatency(n),
                        (ServerRequest::StreamSetVolume(_), BackendValue::Unit) => ClientMessage::StreamVolumeSet(),
                        (ServerRequest::StreamSetPanning(_), BackendValue::Unit) => ClientMessage::StreamPanningSet(),
                        (ServerRequest::StreamGetCurrentDevice(_), BackendValue::Device(d)) => ClientMessage::StreamCurrentDevice(d),
                        _ => ClientMessage::ClientError,
                    },
                },
            }
        }),
{
    if !context_ok {
        return ClientMessage::ContextError(CUBEB_ERROR);
    }
    match req {
        ServerRequest::ClientDisconnect => return ClientMessage::ClientDisconnected,
        ServerRequest::ContextGetBackendId => return ClientMessage::ContextBackendId(),
        ServerRequest::StreamDestroy(_) => return ClientMessage::StreamDestroyed,
        ServerRequest::StreamStart(_) => return ClientMessage::StreamStarted,
        ServerRequest::StreamStop(_) => return ClientMessage::StreamStopped,
        _ => {},
    }
    match result {
        Err(code) => ClientMessage::ContextError(code),
        Ok(v) => match (req, v) {
            (ServerRequest::ContextGetMaxChannelCount, BackendValue::ChannelCount(n)) => ClientMessage::ContextMaxChannelCount(n),
            (ServerRequest::ContextGetMinLatency(_), BackendValue::MinLatency(n)) => ClientMessage::ContextMinLatency(n),
            (ServerRequest::ContextGetPreferredSampleRate, BackendValue::SampleRate(n)) => ClientMessage::ContextPreferredSampleRate(n),
            (ServerRequest::ContextGetPreferredChannelLayout, BackendValue::Layout(l)) => ClientMessage::ContextPreferredChannelLayout(l),
            (ServerRequest::StreamGetPosition(_), BackendValue::Position(p)) => ClientMessage::StreamPosition(p),
            (ServerRequest::StreamGetLatency(_), BackendValue::Latency(n)) => ClientMessage::StreamLatency(n),
            (ServerRequest::StreamSetVolume(_), BackendValue::Unit) => ClientMessage::StreamVolumeSet(),
            (ServerRequest::StreamSetPanning(_), BackendValue::Unit) => ClientMessage::StreamPanningSet(),
            (ServerRequest::StreamGetCurrentDevice(_), BackendValue::Device(d)) => ClientMessage::StreamCurrentDevice(d),
            _ => ClientMessage::ClientError,
        },
    }
}

/// Every request that is not refused gets its own kind of reply when its
/// backend call succeeds, and the call's error code when it fails.
pub proof fn lemma_replies_match_requests(req: ServerRequest, result: Result<BackendValue, i32>)
    requires
        !(req is ClientConnect),
        !(req is StreamInit),
        result_fits(req, result),
    ensures
        reply_for(true, &req, result) != ClientMessage::ClientError,
        !(req is ClientDisconnect || req is ContextGetBackendId || req is StreamDestroy
            || req is StreamStart || req is StreamStop) ==> (result matches Err(code)
            ==> reply_for(true, &req, result) == ClientMessage::ContextError(code)),
{
}

/// The stream a backend call works on.
pub open spec fn call_stream(call: BackendCall) -> Option<usize> {
    match call {
        BackendCall::DestroyStream(t) => Some(t),
        BackendCall::Start(t) => Some(t),
        BackendCall::Stop(t) => Some(t),
        BackendCall::Position(t) => Some(t),
        BackendCall::Latency(t) => Some(t),
        BackendCall::SetVolume(t) => Some(t),
        BackendCall::SetPanning(t) => Some(t),
        BackendCall::CurrentDevice(t) => Some(t),
        _ => None,
    }
}

/// The stream a request names.
pub open spec fn request_stream(req: ServerRequest) -> Option<usize> {
    call_stream(backend_call(true, &req))
}

/// What a backend call gives: a value of the call's shape, or a backend
/// error code.
pub open spec fn call_result_fits(call: BackendCall, result: Result<BackendValue, i32>) -> bool {
    match result {
        Err(code) => is_backend_error(code),
        Ok(v) => value_fits(call, v),
    }
}

/// The stream table after a backend call: destroying a stream takes its
/// token out, every other call leaves the tokens as they are.
pub open spec fn tokens_after(call: BackendCall, tokens: Set<usize>) -> Set<usize> {
    match call {
        BackendCall::DestroyStream(t) => tokens.remove(t),
        _ => tokens,
    }
}

/// Makes a backend call on the context and the stream table.  The backend
/// offers no channel layout query and no panning: those are answered with its
/// not-supported code.  Volume and stream creation are made by the caller,
/// which holds what they need.
fn perform(context: &Context, streams: &mut Slab<Stream>, call: &BackendCall) -> (r: Result<BackendValue, i32>)
    requires
        !(call is SetVolume),
        !(call is InitStream),
        call_stream(*call) matches Some(t) ==> stream_tokens(*old(streams)).contains(t),
    ensures
        call_result_fits(*call, r),
        call is PreferredChannelLayout || call is SetPanning ==> r == Err::<BackendValue, i32>(BACKEND_NOT_SUPPORTED),
        stream_tokens(*final(streams)) == tokens_after(*call, stream_tokens(*old(streams))),
{
    match call {
        BackendCall::NoCall | BackendCall::InitStream | BackendCall::SetVolume(_) => Ok(BackendValue::Unit),
        BackendCall::MaxChannelCount => context_max_channel_count(context),
        BackendCall::MinLatency(p) => context_min_latency(context, p.format, p.rate, p.channels, p.layout),
        BackendCall::PreferredSampleRate => context_preferred_sample_rate(context),
        BackendCall::PreferredChannelLayout | BackendCall::SetPanning(_) => Err(BACKEND_NOT_SUPPORTED),
        BackendCall::DestroyStream(t) => {
            let _ = table_remove(streams, *t);
            Ok(BackendValue::Unit)
        },
        BackendCall::Start(t) => stream_start(table_get(streams, *t).unwrap()),
        BackendCall::Stop(t) => stream_stop(table_get(streams, *t).unwrap()),
        BackendCall::Position(t) => match stream_position(table_get(streams, *t).unwrap()) {
            Ok(p) => Ok(BackendValue::Position(p)),
            Err(e) => Err(e),
        },
        BackendCall::Latency(t) => stream_latency(table_get(streams, *t).unwrap()),
        BackendCall::CurrentDevice(t) => match stream_current_device(table_get(streams, *t).unwrap()) {
            Ok((output_name, input_name)) => Ok(BackendValue::Device(Device::from_names(output_name, input_name))),
            Err(e) => Err(e),
        },
    }
}

/// Whether the stream table holds a stream under `token`.
pub fn has_stream(streams: &Slab<Stream>, token: usize) -> (b: bool)
    ensures
        b == stream_tokens(*streams).contains(token),
{
    table_get(streams, token).is_some()
}

/// What answering a request comes to.
#[derive(Debug)]
pub enum Dispatched {
    /// The reply to queue for the client.
    Reply(ClientMessage),
    /// The request creates a stream; the stream set-up answers it.
    StreamInit(StreamInitParams),
    /// The stream with this token gets the volume that travels beside the
    /// request; `reply_for` answers it with what that call gave.
    SetVolume(usize),
}

/// `d` answers `req`: without a context, with the generic error; stream
/// creation and volume are handed on; channel layout and panning, which the
/// backend does not offer, with its not-supported code; any other request
/// with the reply `reply_for` builds from some result of its backend call.
pub open spec fn answers(context_ok: bool, req: ServerRequest, d: Dispatched) -> bool {
    if !context_ok {
        d == Dispatched::Reply(ClientMessage::ContextError(CUBEB_ERROR))
    } else {
        match req {
            ServerRequest::StreamInit(p) => d == Dispatched::StreamInit(p),
            ServerRequest::StreamSetVolume(t) => d == Dispatched::SetVolume(t),
            ServerRequest::ContextGetPreferredChannelLayout => d == Dispatched::Reply(
                ClientMessage::ContextError(BACKEND_NOT_SUPPORTED),
            ),
            ServerRequest::StreamSetPanning(_) => d == Dispatched::Reply(
                ClientMessage::ContextError(BACKEND_NOT_SUPPORTED),
            ),
            _ => d matches Dispatched::Reply(m) && exists|res: Result<BackendValue, i32>|
                call_result_fits(backend_call(true, &req), res) && #[trigger] reply_for(true, &req, res) == m,
        }
    }
}

/// Answers one client request.  `context` is the backend context, or `None`
/// when none could be made: then every request is answered with the generic
/// error.  A stream is destroyed by taking it out of the table.  Each other
/// request is answered by `reply_for` from what its backend call gave,
/// whatever that was; channel layout and panning requests, which the backend
/// does not offer, with its not-supported code.
pub fn process_msg(context: Option<&Context>, streams: &mut Slab<Stream>, req: ServerRequest) -> (d: Dispatched)
    requires
        !aborts_on(context is Some, req),
        context is Some ==> (request_stream(req) matches Some(t) ==> stream_tokens(*old(streams)).contains(t)),
    ensures
        answers(context is Some, req, d),
        context is None ==> stream_tokens(*final(streams)) == stream_tokens(*old(streams)),
        context is Some ==> stream_tokens(*final(streams)) == tokens_after(backend_call(true, &req), stream_tokens(*old(streams))),
{
    match context {
        None => Dispatched::Reply(reply_for(false, &req, Err(CUBEB_ERROR))),
        Some(ctx) => {
            match req {
                ServerRequest::StreamInit(p) => return Dispatched::StreamInit(p),
                ServerRequest::StreamSetVolume(t) => return Dispatched::SetVolume(t),
                _ => {},
            }
            let call = backend_call(true, &req);
            let result = perform(ctx, streams, &call);
            let ghost r = result;
            let m = reply_for(true, &req, result);
            assert(call_result_fits(backend_call(true, &req), r) && reply_for(true, &req, r) == m);
            Dispatched::Reply(m)
        },
    }
}

/// The stream a request names, if any.
pub fn request_token(req: &ServerRequest) -> (t: Option<usize>)
    ensures
        t == request_stream(*req),
{
    match req {
        ServerRequest::StreamDestroy(t) => Some(*t),
        ServerRequest::StreamStart(t) => Some(*t),
        ServerRequest::StreamStop(t) => Some(*t),
        ServerRequest::StreamGetPosition(t) => Some(*t),
        ServerRequest::StreamGetLatency(t) => Some(*t),
        ServerRequest::StreamSetVolume(t) => Some(*t),
        ServerRequest::StreamSetPanning(t) => Some(*t),
        ServerRequest::StreamGetCurrentDevice(t) => Some(*t),
        _ => None,
    }
}

/// `process_msg` for a request that may name a stream the table does not
/// hold: such a request is not answered (`None`) and the table is left as
/// it is; any other is answered as `process_msg` answers it.
pub fn process_checked(context: Option<&Context>, streams: &mut Slab<Stream>, req: ServerRequest) -> (d: Option<Dispatched>)
    requires
        !aborts_on(context is Some, req),
    ensures
        match d {
            None => context is Some && (request_stream(req) matches Some(t)
                && !stream_tokens(*old(streams)).contains(t))
                && stream_tokens(*final(streams)) == stream_tokens(*old(streams)),
            Some(x) => answers(context is Some, req, x) && (context is None || (request_stream(req) matches Some(t)
                ==> stream_tokens(*old(streams)).contains(t))),
        },
        context is None ==> d is Some,
        context is Some ==> stream_tokens(*final(streams)) == tokens_after(backend_call(true, &req), stream_tokens(*old(streams))),
{
    if context.is_some() {
        match request_token(&req) {
            Some(t) => if !has_stream(streams, t) {
                return None;
            },
            None => {},
        }
    }
    Some(process_msg(context, streams, req))
}

/// What a stream is created with, taken from the client's request.
#[derive(Debug)]
pub struct StreamSetup {
    pub stream_name: Option<Vec<u8>>,
    pub input_device: usize,
    pub input_params: Option<StreamParams>,
    pub output_device: usize,
    pub output_params: Option<StreamParams>,
    pub latency_frames: u32,
    /// Bytes per input frame, zero without input.
    pub input_frame_size: u16,
    /// Bytes per output frame, zero without output.
    pub output_frame_size: u16,
}

/// Wire parameters widened to the backend's, for a direction that is used.
pub open spec fn spec_opt_params(p: Option<StreamParameters>) -> Option<StreamParams> {
    match p {
        Some(q) => Some(spec_params_from(q)),
        None => None,
    }
}

/// Bytes per frame of a direction, zero when it is not used.
pub open spec fn spec_frame_size(p: Option<StreamParams>) -> int {
    match p {
        Some(q) => spec_sample_size(spec_sample_format(q.format)->0) * (q.channels as u16),
        None => 0,
    }
}

/// Bytes in one sample of the backend's format with this code: two for the
/// 16-bit formats, four for the 32-bit float formats.
pub open spec fn bytes_per_sample(format: i32) -> int {
    if format == 0 || format == 1 {
        2
    } else {
        4
    }
}

/// A frame holds one sample per channel: the frame size of a direction is the
/// size of its format's sample times its channel count, whatever the
/// format, rate, layout or count.
pub proof fn lemma_frame_size_counts_channels(q: StreamParameters)
    requires
        frame_size_defined(spec_params_from(q)),
    ensures
        spec_frame_size(spec_opt_params(Some(q))) == bytes_per_sample(q.format) * q.channels,
        spec_frame_size(spec_opt_params(None)) == 0,
        q.channels > 0 ==> spec_frame_size(spec_opt_params(Some(q))) >= 2 * q.channels,
{
}

/// Each direction that is used has a known format and a frame size that
/// fits in 16 bits; the backend aborts otherwise.
pub open spec fn setup_defined(params: StreamInitParams) -> bool {
    &&& spec_opt_params(params.input_stream_params) matches Some(p) ==> frame_size_defined(p)
    &&& spec_opt_params(params.output_stream_params) matches Some(p) ==> frame_size_defined(p)
}

fn opt_params(p: &Option<StreamParameters>) -> (r: Option<StreamParams>)
    ensures
        r == spec_opt_params(*p),
{
    match p {
        Some(q) => Some(StreamParams::from(q)),
        None => None,
    }
}

fn opt_ref(p: &Option<StreamParams>) -> (r: Option<&StreamParams>)
    ensures
        match *p {
            Some(q) => r == Some(&q),
            None => r is None,
        },
{
    match p {
        Some(q) => Some(q),
        None => None,
    }
}

/// The set-up of a stream a client asked for: its name, devices, latency and
/// the parameters of each direction it uses, with the frame size in bytes
/// of each direction.
pub fn stream_setup(params: StreamInitParams) -> (s: StreamSetup)
    requires
        setup_defined(params),
    ensures
        s.stream_name == params.stream_name,
        s.input_device == params.input_device,
        s.output_device == params.output_device,
        s.latency_frames == params.latency_frames,
        s.input_params == spec_opt_params(params.input_stream_params),
        s.output_params == spec_opt_params(params.output_stream_params),
        s.input_frame_size == spec_frame_size(s.input_params),
        s.output_frame_size == spec_frame_size(s.output_params),
        match params.input_stream_params {
            Some(q) => s.input_frame_size == bytes_per_sample(q.format) * q.channels,
            None => s.input_frame_size == 0,
        },
        match params.output_stream_params {
            Some(q) => s.output_frame_size == bytes_per_sample(q.format) * q.channels,
            None => s.output_frame_size == 0,
        },
{
    let input_params = opt_params(&params.input_stream_params);
    let output_params = opt_params(&params.output_stream_params);
    let input_frame_size = frame_size_in_bytes(opt_ref(&input_params));
    let output_frame_size = frame_size_in_bytes(opt_ref(&output_params));
    StreamSetup {
        stream_name: params.stream_name,
        input_device: params.input_device,
        input_params,
        output_device: params.output_device,
        output_params,
        latency_frames: params.latency_frames,
        input_frame_size,
        output_frame_size,
    }
}

/// The reply to a stream creation: created, or the backend's error code.
pub fn stream_init_reply(result: Result<(), i32>) -> (m: ClientMessage)
    ensures
        m == match result {
            Ok(()) => ClientMessage::StreamCreated,
            Err(code) => ClientMessage::ContextError(code),
        },
{
    match result {
        Ok(()) => ClientMessage::StreamCreated,
        Err(code) => ClientMessage::ContextError(code),
    }
}

/// Registers a stream the backend created under a new token of the stream
/// table and answers the client; a stream the backend could not create is
/// answered with the backend's error code and the table is left as it is.
pub fn stream_created(streams: &mut Slab<Stream>, created: Result<Stream, i32>) -> (r: (Option<usize>, ClientMessage))
    ensures
        match created {
            Ok(_) => r.0 matches Some(t) && !stream_tokens(*old(streams)).contains(t)
                && stream_tokens(*final(streams)) == stream_tokens(*old(streams)).insert(t)
                && r.1 == ClientMessage::StreamCreated,
            Err(code) => r.0 is None && stream_tokens(*final(streams)) == stream_tokens(*old(streams))
                && r.1 == ClientMessage::ContextError(code),
        },
{
    match created {
        Ok(stream) => {
            let t = table_insert(streams, stream);
            (Some(t), stream_init_reply(Ok(())))
        },
        Err(code) => (None, stream_init_reply(Err(code))),
    }
}

/// What the server's data callback hands the backend, and how many bytes of
/// output it takes from the client's shared memory.
#[derive(Clone, Copy, Debug, PartialEq, Eq, Structural)]
pub struct CallbackResult {
    /// Frames produced, or the client's negative error.
    pub frames: isize,
    pub output_bytes: usize,
}

/// The client's answer fits the output buffer of `output_capacity` bytes.
pub open spec fn reply_fits(reply: Option<isize>, output_frame_size: u16, output_capacity: usize) -> bool {
    reply matches Some(n) ==> (n >= 0 ==> n * output_frame_size <= output_capacity)
}

/// The server's data callback after the client answered: a count of frames
/// is passed on and that many output frames are taken from shared memory; a
/// negative answer is passed on as it is; an unexpected message is the
/// generic error.
pub fn data_callback_result(reply: Option<isize>, output_frame_size: u16, output_capacity: usize) -> (r: CallbackResult)
    requires
        reply_fits(reply, output_frame_size, output_capacity),
    ensures
        r == match reply {
            None => CallbackResult { frames: -1isize, output_bytes: 0usize },
            Some(n) => if n >= 0 {
                CallbackResult { frames: n, output_bytes: (n * output_frame_size) as usize }
            } else {
                CallbackResult { frames: n, output_bytes: 0usize }
            },
        },
{
    match reply {
        None => CallbackResult { frames: -1, output_bytes: 0 },
        Some(n) => if n >= 0 {
            let frames: usize = n as usize;
            let size: usize = output_frame_size as usize;
            CallbackResult { frames: n, output_bytes: frames * size }
        } else {
            CallbackResult { frames: n, output_bytes: 0 }
        },
    }
}

/// Bytes of input handed to the client for `frames` frames of
/// `input_frame_size` bytes.
pub fn callback_input_bytes(frames: usize, input_frame_size: u16) -> (n: usize)
    requires
        frames * input_frame_size <= usize::MAX,
    ensures
        n == frames * input_frame_size,
{
    frames * (input_frame_size as usize)
}

/// Whom a readiness event of the server's poll is for.
#[derive(Clone, Copy, Debug, PartialEq, Eq, Structural)]
pub enum ServerTarget {
    /// A client is connecting on the listening socket.
    Accept,
    /// The server is asked to quit.
    Quit,
    /// The client connection registered under this token.
    Connection(usize),
}

/// The listening socket's token means a client is connecting, the quit
/// token means the server is to stop, and any other token is a connection's.
#[verifier::allow_in_spec]
pub fn server_target(token: usize) -> ServerTarget
    returns
        (if token == SERVER_TOKEN {
            ServerTarget::Accept
        } else if token == QUIT_TOKEN {
            ServerTarget::Quit
        } else {
            ServerTarget::Connection(token)
        }),
{
    if token == SERVER_TOKEN {
        ServerTarget::Accept
    } else if token == QUIT_TOKEN {
        ServerTarget::Quit
    } else {
        ServerTarget::Connection(token)
    }
}

/// What one read from a client's socket comes to.
#[derive(Clone, Copy, Debug, PartialEq, Eq, Structural)]
pub enum ServerReadStep {
    /// Bytes arrived: decode and answer the complete requests, then read on.
    Received(usize),
    /// Nothing more to read for now: send the pending replies.
    Drained,
    /// The client closed the connection: it is dropped.
    Disconnected,
    /// The read failed: the connection is dropped.
    Failed,
}

/// A server connection reads until its socket would block; end of file
/// means the client disconnected, and any other error is fatal.
#[verifier::allow_in_spec]
pub fn server_read_step(r: IoResult) -> ServerReadStep
    returns
        (match r {
            IoResult::Transferred(n) => if n == 0 {
                ServerReadStep::Disconnected
            } else {
                ServerReadStep::Received(n)
            },
            IoResult::Failed(kind) => if kind == IoErrorKind::WouldBlock {
                ServerReadStep::Drained
            } else {
                ServerReadStep::Failed
            },
        }),
{
    match r {
        IoResult::Transferred(n) => if n == 0 {
            ServerReadStep::Disconnected
        } else {
            ServerReadStep::Received(n)
        },
        IoResult::Failed(kind) => if kind == IoErrorKind::WouldBlock {
            ServerReadStep::Drained
        } else {
            ServerReadStep::Failed
        },
    }
}

/// Whether the server has tried to create its backend context, and how it
/// went.
#[derive(Clone, Copy, Debug, PartialEq, Eq, Structural)]
pub enum ContextStatus {
    NotTried,
    Created,
    Unavailable,
}

/// Accepting a client creates the backend context only when no attempt was
/// made before: a context that could not be created is not tried again.
#[verifier::allow_in_spec]
pub fn create_context_on_accept(status: ContextStatus) -> bool
    returns
        status == ContextStatus::NotTried,
{
    status == ContextStatus::NotTried
}

/// The status after an attempt to create the context.
#[verifier::allow_in_spec]
pub fn context_attempted(created: bool) -> ContextStatus
    returns
        (if created { ContextStatus::Created } else { ContextStatus::Unavailable }),
{
    if created {
        ContextStatus::Created
    } else {
        ContextStatus::Unavailable
    }
}

/// The context is tried once: after any attempt, however it went, no later
/// accept tries again.
pub proof fn lemma_context_tried_once(created: bool)
    ensures
        !create_context_on_accept(context_attempted(created)),
        create_context_on_accept(ContextStatus::NotTried),
{
}

/// How reading a client connection went during one event.
#[derive(Clone, Copy, Debug, PartialEq, Eq, Structural)]
pub enum ReadOutcome {
    NotReadable,
    Read,
    Failed,
}

/// How flushing a client connection's pending replies went.
#[derive(Clone, Copy, Debug, PartialEq, Eq, Structural)]
pub enum FlushOutcome {
    NotWritable,
    /// Flushed; the connection waits for this readiness next.
    Flushed(Interest),
    Failed,
}

/// What becomes of a client connection after an event.
#[derive(Clone, Copy, Debug, PartialEq, Eq, Structural)]
pub enum ConnDecision {
    /// The connection failed and is dropped.
    Drop,
    /// The connection is registered again for this readiness.
    Rearm(Interest),
}

/// A failed read drops the connection before any flush; otherwise a failed
/// flush drops it, and a connection that survives is registered again for
/// what the flush asked for, or for reading.
#[verifier::allow_in_spec]
pub fn conn_decision(read: ReadOutcome, flush: FlushOutcome) -> ConnDecision
    returns
        (if read == ReadOutcome::Failed {
            ConnDecision::Drop
        } else {
            match flush {
                FlushOutcome::NotWritable => ConnDecision::Rearm(Interest { readable: true, writable: false }),
                FlushOutcome::Flushed(r) => ConnDecision::Rearm(r),
                FlushOutcome::Failed => ConnDecision::Drop,
            }
        }),
{
    if read == ReadOutcome::Failed {
        return ConnDecision::Drop;
    }
    match flush {
        FlushOutcome::NotWritable => ConnDecision::Rearm(Interest::readable()),
        FlushOutcome::Flushed(r) => ConnDecision::Rearm(r),
        FlushOutcome::Failed => ConnDecision::Drop,
    }
}

/// Moves the replies encoded since the last flush, if any, to the back of
/// the queue of replies waiting to be sent.
pub fn queue_buffered<T>(pending: &mut VecDeque<T>, buffered: Option<T>)
    ensures
        final(pending)@ == match buffered {
            Some(b) => old(pending)@.push(b),
            None => old(pending)@,
        },
{
    match buffered {
        Some(b) => pending.push_back(b),
        None => {},
    }
}

/// The end of a flush that sent the queued replies in order, the first
/// `sent` of them whole, and stopped at the next one when it could not be
/// sent: the sent replies leave the queue, the rest stay in order, and the
/// connection waits for reading, and for writing exactly when replies are
/// left.
pub fn finish_flush<T>(pending: VecDeque<T>, sent: usize) -> (r: (VecDeque<T>, Interest))
    requires
        sent <= pending@.len(),
    ensures
        r.0@ == pending@.subrange(sent as int, pending@.len() as int),
        r.1.readable,
        r.1.writable <==> r.0@.len() > 0,
{
    let mut pending = pending;
    let rest = pending.split_off(sent);
    let readiness = if rest.len() > 0 {
        Interest::readable().add(Interest::writable())
    } else {
        Interest::readable()
    };
    (rest, readiness)
}

} // verus!
