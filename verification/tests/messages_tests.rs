use audioipc::messages::{
    dup_str, frame_size_in_bytes, Device, SampleFormat, StreamInitParams, StreamParameters, StreamParams,
};

#[test]
fn parameters_from_backend_narrow() {
    let p = StreamParams { format: 2, rate: 48000, channels: 2, layout: 3 };
    let m = StreamParameters::from(&p);
    assert_eq!(m, StreamParameters { format: 2, rate: 48000, channels: 2, layout: 3 });
    let wide = StreamParams { format: 0, rate: 70000, channels: 300, layout: -1 };
    let m = StreamParameters::from(&wide);
    assert_eq!(m.rate, 4464);
    assert_eq!(m.channels, 44);
    assert_eq!(m.layout, -1);
}

#[test]
fn parameters_to_backend_widen() {
    let m = StreamParameters { format: 1, rate: 44100, channels: 6, layout: 9 };
    let p = StreamParams::from(&m);
    assert_eq!(p, StreamParams { format: 1, rate: 44100, channels: 6, layout: 9 });
    assert_eq!(StreamParameters::from(&p), m);
}

#[test]
fn dup_str_keeps_terminator() {
    assert_eq!(dup_str(None), None);
    assert_eq!(dup_str(Some(b"abc")), Some(b"abc\0".to_vec()));
    assert_eq!(dup_str(Some(b"")), Some(vec![0u8]));
}

#[test]
fn device_from_names() {
    let d = Device::from_names(Some(b"speaker"), None);
    assert_eq!(d.output_name, Some(b"speaker\0".to_vec()));
    assert_eq!(d.input_name, None);
}

#[test]
fn sample_formats() {
    let p = |format| StreamParams { format, rate: 48000, channels: 1, layout: 0 };
    assert_eq!(p(0).sample_format(), SampleFormat::S16LE);
    assert_eq!(p(1).sample_format(), SampleFormat::S16BE);
    assert_eq!(p(2).sample_format(), SampleFormat::Float32LE);
    assert_eq!(p(3).sample_format(), SampleFormat::Float32BE);
}

#[test]
fn frame_sizes() {
    assert_eq!(frame_size_in_bytes(None), 0);
    let s16 = StreamParams { format: 0, rate: 48000, channels: 2, layout: 0 };
    assert_eq!(frame_size_in_bytes(Some(&s16)), 4);
    let f32be = StreamParams { format: 3, rate: 48000, channels: 6, layout: 0 };
    assert_eq!(frame_size_in_bytes(Some(&f32be)), 24);
    let wrapped = StreamParams { format: 1, rate: 48000, channels: 65537, layout: 0 };
    assert_eq!(frame_size_in_bytes(Some(&wrapped)), 2);
}

#[test]
fn init_params_hold_fields() {
    let p = StreamInitParams {
        context: 1,
        stream_name: Some(b"s\0".to_vec()),
        input_device: 0,
        input_stream_params: None,
        output_device: 2,
        output_stream_params: Some(StreamParameters { format: 0, rate: 48000, channels: 2, layout: 0 }),
        latency_frames: 256,
        user_ptr: 0,
    };
    assert_eq!(p.latency_frames, 256);
    assert_eq!(p.output_stream_params.unwrap().channels, 2);
}

#[test]
fn backend_params_that_fit_survive_a_message() {
    let p = StreamParams { format: 3, rate: 65535, channels: 255, layout: 7 };
    assert_eq!(StreamParams::from(&StreamParameters::from(&p)), p);
}
