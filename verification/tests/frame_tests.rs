use audioipc::frame::{framed, FramedState, ReadAction, SendDecision, WriteAction, BACKPRESSURE_THRESHOLD, INITIAL_CAPACITY};

#[test]
fn constants() {
    assert_eq!(INITIAL_CAPACITY, 1024);
    assert_eq!(BACKPRESSURE_THRESHOLD, 4 * INITIAL_CAPACITY);
}

#[test]
fn new_transport_reads_first() {
    let s = framed();
    assert_eq!(s, FramedState { is_readable: false, eof: false, write_buf_len: 0, frame_remaining: None });
    assert_eq!(s.read_action(), ReadAction::Read);
}

#[test]
fn read_cycle() {
    let mut s = framed();
    s.on_read(100);
    assert_eq!(s.read_action(), ReadAction::Decode);
    s.on_decode_empty();
    assert_eq!(s.read_action(), ReadAction::Read);
    s.on_read(0);
    assert!(s.eof && s.is_readable);
    assert_eq!(s.read_action(), ReadAction::DecodeEof);
}

#[test]
fn write_cycle() {
    let mut s = framed();
    assert_eq!(s.write_action(), WriteAction::Done);
    s.on_encoded(10);
    assert_eq!(s.write_buf_len, 10);
    assert_eq!(s.write_action(), WriteAction::Write(10));
    assert_eq!(s.write_buf_len, 0);
    s.on_encoded(5);
    s.on_written(4);
    assert_eq!(s.write_action(), WriteAction::Write(6));
    s.on_written(6);
    assert_eq!(s.frame_remaining, None);
    assert_eq!(s.write_action(), WriteAction::Write(5));
    s.on_written(5);
    assert_eq!(s.write_action(), WriteAction::Done);
    assert_eq!(s.write_buf_len, 0);
}

#[test]
fn set_frame_moves_buffer() {
    let mut s = framed();
    s.set_frame();
    assert_eq!(s.frame_remaining, None);
    s.on_encoded(3);
    s.set_frame();
    assert_eq!(s.frame_remaining, Some(3));
    assert_eq!(s.write_buf_len, 0);
}

#[test]
fn backpressure_threshold() {
    let mut s = framed();
    s.on_encoded(4096);
    assert!(!s.over_backpressure());
    s.on_encoded(1);
    assert!(s.over_backpressure());
    assert_eq!(s.write_action(), WriteAction::Write(4097));
    assert!(!s.over_backpressure());
}

#[test]
fn stream_terminates_after_final_decode() {
    let mut s = framed();
    s.on_read(0);
    assert_eq!(s.read_action(), ReadAction::DecodeEof);
    s.on_decode_eof_empty();
    assert_eq!(s.read_action(), ReadAction::Terminated);
    assert_eq!(s.read_action(), ReadAction::Terminated);
}

#[test]
fn send_decisions() {
    let mut s = framed();
    s.on_encoded(4096);
    assert_eq!(s.send_decision(false), SendDecision::Accept);
    s.on_encoded(1);
    assert_eq!(s.send_decision(false), SendDecision::FlushFirst);
    assert_eq!(s.send_decision(true), SendDecision::Refuse);
    assert_eq!(s.write_action(), WriteAction::Write(4097));
    assert_eq!(s.send_decision(true), SendDecision::Accept);
}
