use audioipc::connection::{IoErrorKind, IoResult};
use audioipc::server::{server_read_step, ServerReadStep};
use audioipc::server::{context_attempted, create_context_on_accept, ContextStatus};
use std::collections::VecDeque;
use audioipc::messages::StreamInitParams;
use audioipc::server::{request_token, callback_input_bytes, data_callback_result, stream_init_reply, stream_setup, CallbackResult};
use audioipc::interest::Interest;
use audioipc::messages::{ClientMessage, Device, StreamParameters, StreamParams};
use audioipc::server::{
    backend_call, conn_decision, finish_flush, queue_buffered, reply_for, server_target, BackendCall,
    BackendValue, ConnDecision, FlushOutcome, ReadOutcome, ServerRequest, ServerTarget, CUBEB_ERROR, QUIT_TOKEN,
    SERVER_TOKEN,
};

#[test]
fn calls_for_requests() {
    assert_eq!(backend_call(true, &ServerRequest::ContextGetMaxChannelCount), BackendCall::MaxChannelCount);
    assert_eq!(backend_call(true, &ServerRequest::ClientDisconnect), BackendCall::NoCall);
    assert_eq!(backend_call(true, &ServerRequest::StreamDestroy(3)), BackendCall::DestroyStream(3));
    assert_eq!(backend_call(true, &ServerRequest::StreamSetVolume(2)), BackendCall::SetVolume(2));
    let p = StreamParameters { format: 0, rate: 48000, channels: 2, layout: 3 };
    assert_eq!(
        backend_call(true, &ServerRequest::ContextGetMinLatency(p)),
        BackendCall::MinLatency(StreamParams { format: 0, rate: 48000, channels: 2, layout: 3 })
    );
    assert_eq!(backend_call(false, &ServerRequest::StreamStart(1)), BackendCall::NoCall);
    assert_eq!(backend_call(false, &ServerRequest::ClientConnect), BackendCall::NoCall);
}

fn reply(req: ServerRequest, result: Result<BackendValue, i32>) -> ClientMessage {
    reply_for(true, &req, result)
}

#[test]
fn replies_for_results() {
    assert!(matches!(reply(ServerRequest::ContextGetMaxChannelCount, Ok(BackendValue::ChannelCount(8))), ClientMessage::ContextMaxChannelCount(8)));
    assert!(matches!(reply(ServerRequest::ContextGetMaxChannelCount, Err(-3)), ClientMessage::ContextError(-3)));
    let p = StreamParameters { format: 0, rate: 48000, channels: 2, layout: 3 };
    assert!(matches!(reply(ServerRequest::ContextGetMinLatency(p), Ok(BackendValue::MinLatency(256))), ClientMessage::ContextMinLatency(256)));
    assert!(matches!(reply(ServerRequest::ContextGetPreferredChannelLayout, Ok(BackendValue::Layout(3))), ClientMessage::ContextPreferredChannelLayout(3)));
    assert!(matches!(reply(ServerRequest::StreamGetPosition(0), Ok(BackendValue::Position(99))), ClientMessage::StreamPosition(99)));
    assert!(matches!(reply(ServerRequest::StreamGetLatency(0), Ok(BackendValue::Latency(7))), ClientMessage::StreamLatency(7)));
    assert!(matches!(reply(ServerRequest::StreamSetVolume(0), Ok(BackendValue::Unit)), ClientMessage::StreamVolumeSet()));
    assert!(matches!(reply(ServerRequest::StreamSetPanning(0), Err(-4)), ClientMessage::ContextError(-4)));
    assert!(matches!(reply(ServerRequest::StreamStart(0), Err(-1)), ClientMessage::StreamStarted));
    assert!(matches!(reply(ServerRequest::StreamStop(0), Ok(BackendValue::Stopped)), ClientMessage::StreamStopped));
    assert!(matches!(reply(ServerRequest::StreamDestroy(0), Ok(BackendValue::Unit)), ClientMessage::StreamDestroyed));
    assert!(matches!(reply(ServerRequest::ClientDisconnect, Ok(BackendValue::Unit)), ClientMessage::ClientDisconnected));
    assert!(matches!(reply(ServerRequest::ContextGetBackendId, Ok(BackendValue::Unit)), ClientMessage::ContextBackendId()));
    let d = Device { output_name: Some(b"out\0".to_vec()), input_name: None };
    match reply(ServerRequest::StreamGetCurrentDevice(1), Ok(BackendValue::Device(d))) {
        ClientMessage::StreamCurrentDevice(d) => assert_eq!(d.output_name, Some(b"out\0".to_vec())),
        other => panic!("unexpected reply {:?}", other),
    }
}

#[test]
fn no_context_means_generic_error() {
    assert_eq!(CUBEB_ERROR, -1);
    assert!(matches!(reply_for(false, &ServerRequest::StreamStart(1), Ok(BackendValue::Started)), ClientMessage::ContextError(-1)));
    assert!(matches!(reply_for(false, &ServerRequest::ClientConnect, Ok(BackendValue::Unit)), ClientMessage::ContextError(-1)));
}

#[test]
fn server_targets() {
    assert_eq!(SERVER_TOKEN, usize::MAX - 1);
    assert_eq!(QUIT_TOKEN, usize::MAX - 2);
    assert_eq!(server_target(SERVER_TOKEN), ServerTarget::Accept);
    assert_eq!(server_target(QUIT_TOKEN), ServerTarget::Quit);
    assert_eq!(server_target(5), ServerTarget::Connection(5));
    assert_eq!(server_target(usize::MAX), ServerTarget::Connection(usize::MAX));
}

#[test]
fn connection_decisions() {
    let r = Interest::readable();
    let rw = r.add(Interest::writable());
    assert_eq!(conn_decision(ReadOutcome::Failed, FlushOutcome::Flushed(rw)), ConnDecision::Drop);
    assert_eq!(conn_decision(ReadOutcome::Read, FlushOutcome::Failed), ConnDecision::Drop);
    assert_eq!(conn_decision(ReadOutcome::Read, FlushOutcome::NotWritable), ConnDecision::Rearm(r));
    assert_eq!(conn_decision(ReadOutcome::NotReadable, FlushOutcome::Flushed(rw)), ConnDecision::Rearm(rw));
}

#[test]
fn pending_replies_after_flush() {
    let r = Interest::readable();
    let rw = r.add(Interest::writable());
    let mut q: VecDeque<u8> = VecDeque::from(vec![1, 2, 3]);
    queue_buffered(&mut q, Some(4));
    assert_eq!(q, VecDeque::from(vec![1, 2, 3, 4]));
    queue_buffered(&mut q, None);
    assert_eq!(q, VecDeque::from(vec![1, 2, 3, 4]));
    assert_eq!(finish_flush(q, 3), (VecDeque::from(vec![4]), rw));
    assert_eq!(finish_flush(VecDeque::from(vec![1, 2]), 0), (VecDeque::from(vec![1, 2]), rw));
    assert_eq!(finish_flush(VecDeque::from(vec![1, 2]), 2), (VecDeque::new(), r));
    assert_eq!(finish_flush(VecDeque::<u8>::new(), 0), (VecDeque::new(), r));
}

#[test]
fn stream_setup_takes_request_and_frame_sizes() {
    let p = StreamInitParams {
        context: 1,
        stream_name: Some(b"s\0".to_vec()),
        input_device: 5,
        input_stream_params: None,
        output_device: 2,
        output_stream_params: Some(StreamParameters { format: 2, rate: 48000, channels: 2, layout: 3 }),
        latency_frames: 256,
        user_ptr: 0,
    };
    let s = stream_setup(p);
    assert_eq!(s.stream_name, Some(b"s\0".to_vec()));
    assert_eq!(s.input_device, 5);
    assert_eq!(s.output_device, 2);
    assert_eq!(s.latency_frames, 256);
    assert_eq!(s.input_params, None);
    assert_eq!(s.output_params, Some(StreamParams { format: 2, rate: 48000, channels: 2, layout: 3 }));
    assert_eq!(s.input_frame_size, 0);
    assert_eq!(s.output_frame_size, 8);
}

#[test]
fn stream_creation_replies() {
    assert!(matches!(stream_init_reply(Ok(())), ClientMessage::StreamCreated));
    assert!(matches!(stream_init_reply(Err(-3)), ClientMessage::ContextError(-3)));
}

#[test]
fn data_callback_results() {
    assert_eq!(data_callback_result(Some(100), 4, 4096), CallbackResult { frames: 100, output_bytes: 400 });
    assert_eq!(data_callback_result(Some(0), 4, 4096), CallbackResult { frames: 0, output_bytes: 0 });
    assert_eq!(data_callback_result(Some(-2), 4, 0), CallbackResult { frames: -2, output_bytes: 0 });
    assert_eq!(data_callback_result(None, 4, 4096), CallbackResult { frames: -1, output_bytes: 0 });
    assert_eq!(callback_input_bytes(256, 4), 1024);
}

#[test]
fn requests_name_their_streams() {
    assert_eq!(request_token(&ServerRequest::StreamDestroy(4)), Some(4));
    assert_eq!(request_token(&ServerRequest::StreamSetVolume(2)), Some(2));
    assert_eq!(request_token(&ServerRequest::StreamGetCurrentDevice(7)), Some(7));
    assert_eq!(request_token(&ServerRequest::ContextGetMaxChannelCount), None);
    assert_eq!(request_token(&ServerRequest::ClientDisconnect), None);
}

#[test]
fn server_reads_until_would_block() {
    assert_eq!(server_read_step(IoResult::Transferred(12)), ServerReadStep::Received(12));
    assert_eq!(server_read_step(IoResult::Transferred(0)), ServerReadStep::Disconnected);
    assert_eq!(server_read_step(IoResult::Failed(IoErrorKind::WouldBlock)), ServerReadStep::Drained);
    assert_eq!(server_read_step(IoResult::Failed(IoErrorKind::Interrupted)), ServerReadStep::Failed);
    assert_eq!(server_read_step(IoResult::Failed(IoErrorKind::Other)), ServerReadStep::Failed);
}

#[test]
fn context_is_tried_once() {
    assert!(create_context_on_accept(ContextStatus::NotTried));
    assert_eq!(context_attempted(true), ContextStatus::Created);
    assert_eq!(context_attempted(false), ContextStatus::Unavailable);
    assert!(!create_context_on_accept(context_attempted(true)));
    assert!(!create_context_on_accept(context_attempted(false)));
}
