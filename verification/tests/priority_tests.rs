use audioipc::thread_priority::PriorityState;

#[test]
fn recorded_promotion_is_taken_once() {
    let mut s: PriorityState<u32> = PriorityState::new();
    assert!(!s.is_promoted());
    s.record_promotion::<()>(Err(()));
    assert!(!s.is_promoted());
    s.record_promotion::<()>(Ok(17));
    assert!(s.is_promoted());
    assert_eq!(s.take(), Some(17));
    assert!(!s.is_promoted());
    assert_eq!(s.take(), None);
}

#[test]
fn demote_without_promotion_is_a_no_op() {
    let mut s = PriorityState::new();
    s.demote();
    assert!(!s.is_promoted());
    s.demote();
    assert!(!s.is_promoted());
}

#[test]
fn promote_is_idempotent() {
    let mut s = PriorityState::new();
    s.promote();
    let first = s.is_promoted();
    s.promote();
    assert_eq!(s.is_promoted(), first);
    s.demote();
    assert!(!s.is_promoted());
}

#[test]
fn promotion_arguments() {
    assert_eq!(audioipc::thread_priority::promotion_request(), (0, 48000));
}
