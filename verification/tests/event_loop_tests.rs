use audioipc::event_loop::{loop_continues, LoopRequest};
use audioipc::connection::ConnOutcome;
use audioipc::event_loop::{connection_finished, connection_token, event_target, EventTarget, WAKE_TOKEN};

#[test]
fn wake_token_is_all_ones() {
    assert_eq!(WAKE_TOKEN, !0usize);
    assert_eq!(event_target(!0), EventTarget::Wake);
}

#[test]
fn connection_tokens_target_connections() {
    for key in [0usize, 1, 63, 64, 1 << 20] {
        let token = connection_token(key);
        assert_eq!(token, key);
        assert_eq!(event_target(token), EventTarget::Connection(key));
    }
}

#[test]
fn finished_connections() {
    assert!(connection_finished(ConnOutcome::Done(true)));
    assert!(!connection_finished(ConnOutcome::Done(false)));
    assert!(connection_finished(ConnOutcome::Failed));
}

#[test]
fn shutdown_ends_the_loop() {
    assert!(!loop_continues(LoopRequest::Shutdown));
    assert!(loop_continues(LoopRequest::AddConnection));
    assert!(loop_continues(LoopRequest::WakeConnection));
}
