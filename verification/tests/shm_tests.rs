use audioipc::shm::{allocation_failure, view_fits, AllocationFailure, NO_SPACE};

#[test]
fn views_fit_inside_mapping() {
    assert!(view_fits(0, 4096));
    assert!(view_fits(4096, 4096));
    assert!(!view_fits(4097, 4096));
    assert!(!view_fits(1, 0));
}

#[test]
fn full_device_is_fatal() {
    assert_eq!(allocation_failure(NO_SPACE), AllocationFailure::Fatal);
    assert_eq!(allocation_failure(95), AllocationFailure::TryNext);
    assert_eq!(allocation_failure(22), AllocationFailure::TryNext);
}
