use vstd::prelude::*;
use cubeb_core::{Context, Stream};
use slab::Slab;
use crate::server::BackendValue;

verus! {

#[verifier::external_type_specification]
#[verifier::external_body]
pub struct ExContext(cubeb_core::Context);

#[verifier::external_type_specification]
#[verifier::external_body]
pub struct ExStream(cubeb_core::Stream);

#[verifier::external_type_specification]
#[verifier::external_body]
#[verifier::reject_recursive_types(T)]
pub struct ExSlab<T>(slab::Slab<T>);

/// The tokens under which a stream table holds a stream.
pub uninterp spec fn stream_tokens(streams: Slab<Stream>) -> Set<usize>;

/// Whether `code` is one of the backend's error codes.
pub open spec fn is_backend_error(code: i32) -> bool {
    -5 <= code <= -1
}

/// The backend's code for an operation it does not offer.
pub const BACKEND_NOT_SUPPORTED: i32 = -4;

/// `slab::Slab::get`: the stream under `token`, found exactly when the
/// token is one of the table's keys.
#[verifier::external_body]
pub(crate) fn table_get(streams: &Slab<Stream>, token: usize) -> (r: Option<&Stream>)
    ensures
        r is Some <==> stream_tokens(*streams).contains(token),
{
    streams.get(token)
}

/// `slab::Slab::try_remove`: takes the stream under `token` out of the
/// table, when there is one; the other tokens stay.
#[verifier::external_body]
pub(crate) fn table_remove(streams: &mut Slab<Stream>, token: usize) -> (r: Option<Stream>)
    ensures
        r is Some <==> stream_tokens(*old(streams)).contains(token),
        stream_tokens(*final(streams)) == stream_tokens(*old(streams)).remove(token),
{
    streams.try_remove(token)
}

/// `slab::Slab::insert`: puts the stream under the next vacant token, which
/// it returns.  Growing the table's storage is taken to succeed, as vstd
/// takes a vector's growth to succeed.
#[verifier::external_body]
pub(crate) fn table_insert(streams: &mut Slab<Stream>, stream: Stream) -> (t: usize)
    ensures
        !stream_tokens(*old(streams)).contains(t),
        stream_tokens(*final(streams)) == stream_tokens(*old(streams)).insert(t),
{
    streams.insert(stream)
}

/// `cubeb_core::ContextRef::max_channel_count`, its count given as
/// `ChannelCount`.  The count comes from the audio system; only that a
/// success is of that kind and a failure carries a backend error code is
/// claimed.
#[verifier::external_body]
pub(crate) fn context_max_channel_count(context: &Context) -> (r: Result<BackendValue, i32>)
    ensures
        r matches Ok(v) ==> v is ChannelCount,
        r matches Err(code) ==> is_backend_error(code),
{
    match context.max_channel_count() {
        Ok(n) => Ok(BackendValue::ChannelCount(n)),
        Err(e) => Err(e as i32),
    }
}

/// `cubeb_core::ContextRef::min_latency` on the stream parameters with these
/// format, rate, channel count and layout codes, its latency given as
/// `MinLatency`.  The latency comes from the audio system; only that a
/// success is of that kind and a failure carries a backend error code is
/// claimed.
#[verifier::external_body]
pub(crate) fn context_min_latency(context: &Context, format: i32, rate: u32, channels: u32, layout: i32) -> (r: Result<BackendValue, i32>)
    ensures
        r matches Ok(v) ==> v is MinLatency,
        r matches Err(code) ==> is_backend_error(code),
{
    let params = cubeb_core::StreamParamsBuilder::new()
        .format(cubeb_core::SampleFormat::from(format as cubeb_core::ffi::cubeb_sample_format))
        .rate(rate)
        .channels(channels)
        .layout(cubeb_core::ChannelLayout::from(layout as cubeb_core::ffi::cubeb_channel_layout))
        .take();
    match context.min_latency(&params) {
        Ok(n) => Ok(BackendValue::MinLatency(n)),
        Err(e) => Err(e as i32),
    }
}

/// `cubeb_core::ContextRef::preferred_sample_rate`, its rate given as
/// `SampleRate`.  The rate comes from the audio system; only that a success
/// is of that kind and a failure carries a backend error code is claimed.
#[verifier::external_body]
pub(crate) fn context_preferred_sample_rate(context: &Context) -> (r: Result<BackendValue, i32>)
    ensures
        r matches Ok(v) ==> v is SampleRate,
        r matches Err(code) ==> is_backend_error(code),
{
    match context.preferred_sample_rate() {
        Ok(n) => Ok(BackendValue::SampleRate(n)),
        Err(e) => Err(e as i32),
    }
}

/// `cubeb_core::StreamRef::start`, its success given as `Started`.  Whether
/// playback starts rests on the audio system; only that a success is that
/// acknowledgement and a failure carries a backend error code is claimed.
#[verifier::external_body]
pub(crate) fn stream_start(stream: &Stream) -> (r: Result<BackendValue, i32>)
    ensures
        r matches Ok(v) ==> v is Started,
        r matches Err(code) ==> is_backend_error(code),
{
    match stream.start() {
        Ok(()) => Ok(BackendValue::Started),
        Err(e) => Err(e as i32),
    }
}

/// `cubeb_core::StreamRef::stop`, its success given as `Stopped`.  Whether
/// playback stops rests on the audio system; only that a success is that
/// acknowledgement and a failure carries a backend error code is claimed.
#[verifier::external_body]
pub(crate) fn stream_stop(stream: &Stream) -> (r: Result<BackendValue, i32>)
    ensures
        r matches Ok(v) ==> v is Stopped,
        r matches Err(code) ==> is_backend_error(code),
{
    match stream.stop() {
        Ok(()) => Ok(BackendValue::Stopped),
        Err(e) => Err(e as i32),
    }
}

/// `cubeb_core::StreamRef::position`.  The position comes from the audio
/// system; only that a failure carries a backend error code is claimed.
#[verifier::external_body]
pub(crate) fn stream_position(stream: &Stream) -> (r: Result<u64, i32>)
    ensures
        r matches Err(code) ==> is_backend_error(code),
{
    match stream.position() {
        Ok(p) => Ok(p),
        Err(e) => Err(e as i32),
    }
}

/// `cubeb_core::StreamRef::latency`, its latency given as `Latency`.  The
/// latency comes from the audio system; only that a success is of that kind
/// and a failure carries a backend error code is claimed.
#[verifier::external_body]
pub(crate) fn stream_latency(stream: &Stream) -> (r: Result<BackendValue, i32>)
    ensures
        r matches Ok(v) ==> v is Latency,
        r matches Err(code) ==> is_backend_error(code),
{
    match stream.latency() {
        Ok(n) => Ok(BackendValue::Latency(n)),
        Err(e) => Err(e as i32),
    }
}

/// `cubeb_core::StreamRef::current_device`, with the device's output and
/// input names as the bytes before their terminating nul.  The device comes
/// from the audio system; only that a failure carries a backend error code
/// is claimed.
#[verifier::external_body]
pub(crate) fn stream_current_device<'a>(stream: &'a Stream) -> (r: Result<(Option<&'a [u8]>, Option<&'a [u8]>), i32>)
    ensures
        r matches Err(code) ==> is_backend_error(code),
{
    match stream.current_device() {
        Ok(d) => Ok((d.output_name_bytes(), d.input_name_bytes())),
        Err(e) => Err(e as i32),
    }
}

} // verus!
