use vstd::prelude::*;

verus! {

/// Stream parameters as they travel in messages.
#[derive(Clone, Copy, Debug, PartialEq, Eq, Structural)]
pub struct StreamParameters {
    pub format: i32,
    pub rate: u16,
    pub channels: u8,
    pub layout: i32,
}

/// Stream parameters as the audio backend holds them.
#[derive(Clone, Copy, Debug, PartialEq, Eq, Structural)]
pub struct StreamParams {
    pub format: i32,
    pub rate: u32,
    pub channels: u32,
    pub layout: i32,
}

/// The message form of backend parameters: rate and channel count are
/// narrowed as a cast narrows them.
pub open spec fn spec_parameters_from(p: StreamParams) -> StreamParameters {
    StreamParameters {
        format: p.format,
        rate: p.rate as u16,
        channels: p.channels as u8,
        layout: p.layout,
    }
}

/// The backend form of message parameters.
pub open spec fn spec_params_from(p: StreamParameters) -> StreamParams {
    StreamParams { format: p.format, rate: p.rate as u32, channels: p.channels as u32, layout: p.layout }
}

impl<'a> From<&'a StreamParams> for StreamParameters {
    fn from(params: &'a StreamParams) -> (r: StreamParameters) {
        StreamParameters {
            format: params.format,
            rate: params.rate as u16,
            channels: params.channels as u8,
            layout: params.layout,
        }
    }
}

impl<'a> vstd::std_specs::convert::FromSpecImpl<&'a StreamParams> for StreamParameters {
    open spec fn obeys_from_spec() -> bool {
        true
    }

    open spec fn from_spec(params: &'a StreamParams) -> StreamParameters {
        spec_parameters_from(*params)
    }
}

impl<'a> From<&'a StreamParameters> for StreamParams {
    fn from(params: &'a StreamParameters) -> (r: StreamParams) {
        StreamParams {
            format: params.format,
            rate: params.rate as u32,
            channels: params.channels as u32,
            layout: params.layout,
        }
    }
}

impl<'a> vstd::std_specs::convert::FromSpecImpl<&'a StreamParameters> for StreamParams {
    open spec fn obeys_from_spec() -> bool {
        true
    }

    open spec fn from_spec(params: &'a StreamParameters) -> StreamParams {
        spec_params_from(*params)
    }
}

/// Converting message parameters to the backend's form and back gives them
/// back unchanged.
pub proof fn lemma_parameters_roundtrip(p: StreamParameters)
    ensures
        spec_parameters_from(spec_params_from(p)) == p,
{
    let r = p.rate;
    let c = p.channels;
    assert(((r as u32) as u16) == r) by (bit_vector);
    assert(((c as u32) as u8) == c) by (bit_vector);
}

/// Backend parameters whose rate and channel count fit the message fields
/// survive the trip through a message unchanged.
pub proof fn lemma_params_roundtrip(p: StreamParams)
    requires
        p.rate <= u16::MAX,
        p.channels <= u8::MAX,
    ensures
        spec_params_from(spec_parameters_from(p)) == p,
{
    let r = p.rate;
    let c = p.channels;
    assert(r <= 0xffff ==> ((r as u16) as u32) == r) by (bit_vector);
    assert(c <= 0xff ==> ((c as u8) as u32) == c) by (bit_vector);
}

/// Parameters for creating a stream on the server.
#[derive(Debug)]
pub struct StreamInitParams {
    pub context: usize,
    pub stream_name: Option<Vec<u8>>,
    pub input_device: usize,
    pub input_stream_params: Option<StreamParameters>,
    pub output_device: usize,
    pub output_stream_params: Option<StreamParameters>,
    pub latency_frames: u32,
    pub user_ptr: usize,
}

/// The names of a stream's current devices, each as a nul-terminated string.
#[derive(Debug)]
pub struct Device {
    pub output_name: Option<Vec<u8>>,
    pub input_name: Option<Vec<u8>>,
}

/// A copy of a C string's bytes including its terminating nul.
pub open spec fn spec_with_nul(s: Seq<u8>) -> Seq<u8> {
    s.push(0u8)
}

/// Copies a C string, given by its bytes before the terminating nul, into an
/// owned buffer that keeps the terminator; an absent string stays absent.
pub fn dup_str(s: Option<&[u8]>) -> (r: Option<Vec<u8>>)
    ensures
        match s {
            None => r is None,
            Some(b) => r matches Some(v) && v@ == spec_with_nul(b@),
        },
{
    match s {
        None => None,
        Some(bytes) => {
            let mut v: Vec<u8> = Vec::new();
            let mut i: usize = 0;
            while i < bytes.len()
                invariant
                    i <= bytes@.len(),
                    v@ == bytes@.subrange(0, i as int),
                decreases bytes@.len() - i,
            {
                v.push(bytes[i]);
                i = i + 1;
            }
            v.push(0u8);
            proof {
                assert(bytes@.subrange(0, bytes@.len() as int) == bytes@);
            }
            Some(v)
        },
    }
}

impl Device {
    /// A device description from the device's output and input names, each
    /// given by the bytes of its C string before the terminating nul.
    pub fn from_names(output_name: Option<&[u8]>, input_name: Option<&[u8]>) -> (d: Device)
        ensures
            match output_name {
                None => d.output_name is None,
                Some(b) => d.output_name matches Some(v) && v@ == spec_with_nul(b@),
            },
            match input_name {
                None => d.input_name is None,
                Some(b) => d.input_name matches Some(v) && v@ == spec_with_nul(b@),
            },
    {
        let output_name = dup_str(output_name);
        let input_name = dup_str(input_name);
        Device { output_name, input_name }
    }
}

/// Server to client messages.
#[derive(Debug)]
pub enum ClientMessage {
    ClientConnected,
    ClientDisconnected,
    ContextBackendId(),
    ContextMaxChannelCount(u32),
    ContextMinLatency(u32),
    ContextPreferredSampleRate(u32),
    ContextPreferredChannelLayout(i32),
    StreamCreated,
    StreamDestroyed,
    StreamStarted,
    StreamStopped,
    StreamPosition(u64),
    StreamLatency(u32),
    StreamVolumeSet(),
    StreamPanningSet(),
    StreamCurrentDevice(Device),
    ContextError(i32),
    StreamError,
    ClientError,
}

/// Sample formats of the audio backend.
#[derive(Clone, Copy, Debug, PartialEq, Eq, Structural)]
pub enum SampleFormat {
    S16LE,
    S16BE,
    Float32LE,
    Float32BE,
}

/// The backend's numbering of sample formats.
pub open spec fn spec_sample_format(code: i32) -> Option<SampleFormat> {
    if code == 0 {
        Some(SampleFormat::S16LE)
    } else if code == 1 {
        Some(SampleFormat::S16BE)
    } else if code == 2 {
        Some(SampleFormat::Float32LE)
    } else if code == 3 {
        Some(SampleFormat::Float32BE)
    } else {
        None
    }
}

/// Bytes per sample of each format.
pub open spec fn spec_sample_size(f: SampleFormat) -> int {
    match f {
        SampleFormat::S16LE | SampleFormat::S16BE => 2,
        SampleFormat::Float32LE | SampleFormat::Float32BE => 4,
    }
}

/// Parameters whose format the backend knows and whose frame size fits in
/// 16 bits, the channel count taken as a cast to 16 bits takes it.
pub open spec fn frame_size_defined(p: StreamParams) -> bool {
    &&& spec_sample_format(p.format) is Some
    &&& spec_sample_size(spec_sample_format(p.format)->0) * (p.channels as u16) <= u16::MAX
}

impl StreamParams {
    /// The sample format; the backend aborts on a code it does not know.
    pub fn sample_format(&self) -> (f: SampleFormat)
        requires
            spec_sample_format(self.format) is Some,
        ensures
            spec_sample_format(self.format) == Some(f),
    {
        if self.format == 0 {
            SampleFormat::S16LE
        } else if self.format == 1 {
            SampleFormat::S16BE
        } else if self.format == 2 {
            SampleFormat::Float32LE
        } else {
            SampleFormat::Float32BE
        }
    }
}

/// Size in bytes of one frame of a stream: sample size times channel count,
/// or zero for a stream direction that is not used.
pub fn frame_size_in_bytes(params: Option<&StreamParams>) -> (r: u16)
    requires
        params matches Some(p) ==> frame_size_defined(*p),
    ensures
        match params {
            None => r == 0,
            Some(p) => r == spec_sample_size(spec_sample_format(p.format)->0) * (p.channels as u16),
        },
        params matches Some(p) ==> r == (if p.format == 0 || p.format == 1 { 2int } else { 4int }) * (p.channels as u16),
{
    match params {
        Some(p) => {
            let sample_size: u16 = match p.sample_format() {
                SampleFormat::S16LE | SampleFormat::S16BE => 2,
                SampleFormat::Float32LE | SampleFormat::Float32BE => 4,
            };
            let channel_count: u16 = p.channels as u16;
            sample_size * channel_count
        },
        None => 0u16,
    }
}

} // verus!
