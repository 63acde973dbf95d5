use audioipc::device_info::{default_format_name, device_type_label, format_names, DeviceTypeLabel, FormatName};

#[test]
fn type_labels() {
    assert_eq!(device_type_label(1), DeviceTypeLabel::Input);
    assert_eq!(device_type_label(3), DeviceTypeLabel::Input);
    assert_eq!(device_type_label(2), DeviceTypeLabel::Output);
    assert_eq!(device_type_label(0), DeviceTypeLabel::Unknown);
}

#[test]
fn default_formats() {
    assert_eq!(default_format_name(0x10), Some(FormatName::S16LE));
    assert_eq!(default_format_name(0x20), Some(FormatName::S16BE));
    assert_eq!(default_format_name(0x1000), Some(FormatName::F32LE));
    assert_eq!(default_format_name(0x2000), Some(FormatName::F32BE));
    assert_eq!(default_format_name(0x30), None);
}

#[test]
fn supported_formats_in_order() {
    assert_eq!(format_names(0x2010), vec![FormatName::S16LE, FormatName::F32BE]);
    assert_eq!(format_names(0x3030), vec![FormatName::S16LE, FormatName::S16BE, FormatName::F32LE, FormatName::F32BE]);
    assert_eq!(format_names(0), Vec::<FormatName>::new());
}
