use audioipc::client_stream::{data_reply_len, stream_step, StreamAction, StreamEvent};

#[test]
fn stream_steps() {
    assert_eq!(stream_step(StreamEvent::Destroyed), StreamAction::Exit);
    assert_eq!(stream_step(StreamEvent::ReceiveFailed), StreamAction::Continue);
    assert_eq!(stream_step(StreamEvent::Other), StreamAction::Continue);
    assert_eq!(stream_step(StreamEvent::StateCallback(2)), StreamAction::RunState(2));
    assert_eq!(
        stream_step(StreamEvent::DataCallback { nframes: 256, frame_size: 4 }),
        StreamAction::RunData { nframes: 256, buffer_len: 1024 }
    );
}

#[test]
fn data_reply_lengths() {
    assert_eq!(data_reply_len(256, 4, 1024), 1024);
    assert_eq!(data_reply_len(100, 4, 1024), 400);
    assert_eq!(data_reply_len(300, 4, 1024), 1024);
    assert_eq!(data_reply_len(0, 4, 1024), 0);
}
