use audioipc::connection::{
    interrupted, would_block, Action, ConnEvent, ConnOutcome, ConnectionState, DriverOutcome,
    IoErrorKind, IoResult, Phase, Registration,
};
use audioipc::interest::Interest;

fn rw() -> Interest {
    Interest::readable().add(Interest::writable())
}

fn reg(i: Interest) -> Registration {
    Registration::Registered(i)
}

fn idle(i: Interest, driver_done: bool) -> ConnectionState {
    ConnectionState { registration: reg(i), driver_done, phase: Phase::Idle }
}

#[test]
fn error_kinds() {
    assert!(would_block(IoErrorKind::WouldBlock));
    assert!(!would_block(IoErrorKind::Interrupted));
    assert!(!would_block(IoErrorKind::Other));
    assert!(interrupted(IoErrorKind::Interrupted));
    assert!(!interrupted(IoErrorKind::WouldBlock));
    assert!(!interrupted(IoErrorKind::Other));
}

#[test]
fn new_connection_reads() {
    let s = ConnectionState::new();
    assert_eq!(s.registration, reg(Interest::readable()));
    assert!(!s.driver_done);
    assert_eq!(s.phase, Phase::Idle);
}

#[test]
fn readable_event_with_blocked_send() {
    let mut s = ConnectionState::new();
    assert_eq!(s.step(ConnEvent::Readiness { readable: true }), Action::Recv);
    assert_eq!(
        s.step(ConnEvent::Received { result: IoResult::Transferred(10), inbound_empty: false }),
        Action::Process
    );
    assert_eq!(
        s.step(ConnEvent::Processed { outcome: DriverOutcome::Continue, inbound_empty: true }),
        Action::Recv
    );
    assert_eq!(
        s.step(ConnEvent::Received {
            result: IoResult::Failed(IoErrorKind::Interrupted),
            inbound_empty: true
        }),
        Action::Recv
    );
    assert_eq!(
        s.step(ConnEvent::Received {
            result: IoResult::Failed(IoErrorKind::WouldBlock),
            inbound_empty: true
        }),
        Action::Flush
    );
    assert_eq!(s.step(ConnEvent::Flushed { ok: true, outbound_empty: false }), Action::Send);
    assert_eq!(
        s.step(ConnEvent::Sent { result: IoResult::Transferred(4), outbound_empty: false }),
        Action::Send
    );
    assert_eq!(
        s.step(ConnEvent::Sent {
            result: IoResult::Failed(IoErrorKind::WouldBlock),
            outbound_empty: false
        }),
        Action::Reregister(rw())
    );
    assert_eq!(s.registration, reg(rw()));
    assert_eq!(s.step(ConnEvent::Registered { ok: true }), Action::Complete(ConnOutcome::Done(false)));
    assert_eq!(s.phase, Phase::Idle);

    // The writable notification drains the outbound buffer.
    assert_eq!(s.step(ConnEvent::Readiness { readable: false }), Action::Flush);
    assert_eq!(s.step(ConnEvent::Flushed { ok: true, outbound_empty: false }), Action::Send);
    assert_eq!(
        s.step(ConnEvent::Sent { result: IoResult::Transferred(6), outbound_empty: true }),
        Action::Reregister(Interest::readable())
    );
    assert_eq!(s.step(ConnEvent::Registered { ok: true }), Action::Complete(ConnOutcome::Done(false)));
    assert_eq!(s.registration, reg(Interest::readable()));
}

#[test]
fn empty_outbound_still_reregisters() {
    let mut s = ConnectionState::new();
    assert_eq!(s.step(ConnEvent::Wake), Action::Flush);
    assert_eq!(
        s.step(ConnEvent::Flushed { ok: true, outbound_empty: true }),
        Action::Reregister(Interest::readable())
    );
    assert_eq!(s.step(ConnEvent::Registered { ok: true }), Action::Complete(ConnOutcome::Done(false)));
}

#[test]
fn blocked_send_with_write_interest_keeps_registration() {
    let mut s = idle(rw(), false);
    assert_eq!(s.step(ConnEvent::Wake), Action::Flush);
    assert_eq!(s.step(ConnEvent::Flushed { ok: true, outbound_empty: false }), Action::Send);
    assert_eq!(
        s.step(ConnEvent::Sent {
            result: IoResult::Failed(IoErrorKind::WouldBlock),
            outbound_empty: false
        }),
        Action::Complete(ConnOutcome::Done(false))
    );
    assert_eq!(s.registration, reg(rw()));
}

#[test]
fn send_eof_finishes() {
    let mut s = ConnectionState::new();
    assert_eq!(s.step(ConnEvent::Wake), Action::Flush);
    assert_eq!(s.step(ConnEvent::Flushed { ok: true, outbound_empty: false }), Action::Send);
    assert_eq!(
        s.step(ConnEvent::Sent { result: IoResult::Transferred(0), outbound_empty: false }),
        Action::Complete(ConnOutcome::Done(true))
    );
}

#[test]
fn failures_complete_with_error() {
    let mut s = ConnectionState::new();
    assert_eq!(s.step(ConnEvent::Readiness { readable: true }), Action::Recv);
    assert_eq!(
        s.step(ConnEvent::Received { result: IoResult::Failed(IoErrorKind::Other), inbound_empty: true }),
        Action::Complete(ConnOutcome::Failed)
    );
    assert_eq!(s.step(ConnEvent::Wake), Action::Flush);
    assert_eq!(s.step(ConnEvent::Flushed { ok: false, outbound_empty: true }), Action::Complete(ConnOutcome::Failed));
    assert_eq!(s.step(ConnEvent::Readiness { readable: true }), Action::Recv);
    assert_eq!(
        s.step(ConnEvent::Received { result: IoResult::Transferred(3), inbound_empty: false }),
        Action::Process
    );
    assert_eq!(
        s.step(ConnEvent::Processed { outcome: DriverOutcome::Failed, inbound_empty: true }),
        Action::Complete(ConnOutcome::Failed)
    );
    assert_eq!(s.step(ConnEvent::Wake), Action::Flush);
    assert_eq!(s.step(ConnEvent::Flushed { ok: true, outbound_empty: false }), Action::Send);
    assert_eq!(
        s.step(ConnEvent::Sent { result: IoResult::Failed(IoErrorKind::Other), outbound_empty: false }),
        Action::Complete(ConnOutcome::Failed)
    );
    assert_eq!(s.step(ConnEvent::Wake), Action::Flush);
    assert_eq!(
        s.step(ConnEvent::Flushed { ok: true, outbound_empty: true }),
        Action::Reregister(Interest::readable())
    );
    assert_eq!(s.step(ConnEvent::Registered { ok: false }), Action::Complete(ConnOutcome::Failed));
}

#[test]
fn driver_done_with_pending_outbound_drops_read_interest() {
    let mut s = ConnectionState::new();
    assert_eq!(s.step(ConnEvent::Readiness { readable: true }), Action::Recv);
    assert_eq!(
        s.step(ConnEvent::Received { result: IoResult::Transferred(8), inbound_empty: false }),
        Action::Process
    );
    assert_eq!(
        s.step(ConnEvent::Processed { outcome: DriverOutcome::Done, inbound_empty: true }),
        Action::Flush
    );
    assert_eq!(s.step(ConnEvent::Flushed { ok: true, outbound_empty: false }), Action::Send);
    assert_eq!(
        s.step(ConnEvent::Sent {
            result: IoResult::Failed(IoErrorKind::WouldBlock),
            outbound_empty: false
        }),
        Action::Reregister(rw())
    );
    assert_eq!(s.step(ConnEvent::Registered { ok: true }), Action::Reregister(Interest::writable()));
    assert_eq!(s.step(ConnEvent::Registered { ok: true }), Action::Complete(ConnOutcome::Done(false)));
    assert_eq!(s.registration, reg(Interest::writable()));
}

#[test]
fn unprocessed_inbound_data_is_not_accepted() {
    let mut s = ConnectionState::new();
    s.step(ConnEvent::Readiness { readable: true });
    assert!(!s.accepts(ConnEvent::Received { result: IoResult::Transferred(0), inbound_empty: false }));
    assert!(s.accepts(ConnEvent::Received { result: IoResult::Transferred(0), inbound_empty: true }));
    // An event that does not belong to the phase.
    assert!(!s.accepts(ConnEvent::Wake));
    assert_eq!(s.next(ConnEvent::Registered { ok: true }), None);
    s.step(ConnEvent::Received { result: IoResult::Transferred(5), inbound_empty: false });
    assert!(!s.accepts(ConnEvent::Processed { outcome: DriverOutcome::Failed, inbound_empty: false }));
}

#[test]
fn eof_with_nothing_to_send_finishes() {
    let mut s = ConnectionState::new();
    assert_eq!(s.step(ConnEvent::Readiness { readable: true }), Action::Recv);
    assert_eq!(
        s.step(ConnEvent::Received { result: IoResult::Transferred(0), inbound_empty: true }),
        Action::Flush
    );
    assert!(s.driver_done);
    assert_eq!(
        s.step(ConnEvent::Flushed { ok: true, outbound_empty: true }),
        Action::Reregister(Interest::readable())
    );
    assert_eq!(s.step(ConnEvent::Registered { ok: true }), Action::Deregister);
    assert_eq!(s.step(ConnEvent::Registered { ok: true }), Action::Complete(ConnOutcome::Done(true)));
    assert_eq!(s.registration, Registration::Deregistered);
}

#[test]
fn done_connection_finishes_when_drained() {
    let mut s = idle(Interest::writable(), true);
    assert_eq!(s.step(ConnEvent::Readiness { readable: false }), Action::Flush);
    assert_eq!(s.step(ConnEvent::Flushed { ok: true, outbound_empty: false }), Action::Send);
    assert_eq!(
        s.step(ConnEvent::Sent { result: IoResult::Transferred(9), outbound_empty: true }),
        Action::Deregister
    );
    assert_eq!(s.step(ConnEvent::Registered { ok: true }), Action::Complete(ConnOutcome::Done(true)));
}

#[test]
fn deregistered_connection_registers_again_when_blocked() {
    let mut s = ConnectionState { registration: Registration::Deregistered, driver_done: false, phase: Phase::Idle };
    assert_eq!(s.step(ConnEvent::Wake), Action::Flush);
    assert_eq!(s.step(ConnEvent::Flushed { ok: true, outbound_empty: false }), Action::Send);
    assert_eq!(
        s.step(ConnEvent::Sent { result: IoResult::Failed(IoErrorKind::WouldBlock), outbound_empty: false }),
        Action::Register(Interest::writable())
    );
    assert_eq!(s.step(ConnEvent::Registered { ok: true }), Action::Complete(ConnOutcome::Done(false)));
}

#[test]
fn unreadable_event_is_handled_as_wake() {
    for interest in [Interest::readable(), Interest::writable(), rw()] {
        let s = idle(interest, false);
        assert_eq!(s.next(ConnEvent::Readiness { readable: false }), s.next(ConnEvent::Wake));
    }
}
