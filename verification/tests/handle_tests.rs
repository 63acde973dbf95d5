use audioipc::handle::received_handle;
use audioipc::handle::{push_decimal, shm_file_name, valid_handle, PlatformHandle};

#[test]
fn valid_handle_is_non_negative() {
    assert!(valid_handle(0));
    assert!(valid_handle(42));
    assert!(!valid_handle(-1));
    assert!(!valid_handle(i32::MIN));
}

#[test]
fn try_new_rejects_invalid_handles() {
    assert_eq!(PlatformHandle::try_new(-1), None);
    assert_eq!(PlatformHandle::try_new(7), Some(PlatformHandle(7)));
    assert_eq!(PlatformHandle::try_new(0).map(|h| h.as_raw()), Some(0));
}

#[test]
fn new_and_as_raw() {
    let h = PlatformHandle::new(12);
    assert_eq!(h.as_raw(), 12);
    assert_eq!(PlatformHandle::new(-5).as_raw(), -5);
}

#[test]
fn wire_roundtrip() {
    for raw in [0, 1, -1, 1234, i32::MAX, i32::MIN] {
        let h = PlatformHandle::new(raw);
        assert_eq!(PlatformHandle::from_wire(h.to_wire()), h);
    }
}

#[test]
fn wire_value_is_widened_and_narrowed() {
    assert_eq!(PlatformHandle::new(-3).to_wire(), -3i64);
    assert_eq!(PlatformHandle::from_wire((1i64 << 32) + 5).as_raw(), 5);
    assert_eq!(PlatformHandle::from_wire(0x8000_0000).as_raw(), i32::MIN);
}

#[test]
fn decimal_digits() {
    let mut v = vec![b'x'];
    push_decimal(&mut v, 0);
    assert_eq!(v, b"x0".to_vec());
    let mut v = Vec::new();
    push_decimal(&mut v, 4_294_967_295);
    assert_eq!(v, b"4294967295".to_vec());
    let mut v = Vec::new();
    push_decimal(&mut v, 100);
    assert_eq!(v, b"100".to_vec());
}

#[test]
fn shm_file_name_format() {
    assert_eq!(shm_file_name(1234, "input"), b"cubeb-shm-1234-input".to_vec());
    assert_eq!(shm_file_name(7, ""), b"cubeb-shm-7-".to_vec());
    assert_eq!(
        shm_file_name(4_294_967_295, "output"),
        format!("cubeb-shm-{}-{}", u32::MAX, "output").into_bytes()
    );
}

#[test]
fn received_descriptor_goes_with_its_message() {
    assert_eq!(received_handle(&vec![]), None);
    assert_eq!(received_handle(&vec![7]), Some(PlatformHandle(7)));
}
