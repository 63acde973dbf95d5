use vstd::prelude::*;

verus! {

/// Device type bit of input devices.
pub const DEVICE_TYPE_INPUT: u32 = 1;

/// Device type bit of output devices.
pub const DEVICE_TYPE_OUTPUT: u32 = 2;

pub const DEVICE_FMT_S16LE: u32 = 0x0010;

pub const DEVICE_FMT_S16BE: u32 = 0x0020;

pub const DEVICE_FMT_F32LE: u32 = 0x1000;

pub const DEVICE_FMT_F32BE: u32 = 0x2000;

/// How a device is described by its type.
#[derive(Clone, Copy, Debug, PartialEq, Eq, Structural)]
pub enum DeviceTypeLabel {
    Input,
    Output,
    Unknown,
}

/// The sample formats a device report names.
#[derive(Clone, Copy, Debug, PartialEq, Eq, Structural)]
pub enum FormatName {
    S16LE,
    S16BE,
    F32LE,
    F32BE,
}

/// A device that can capture is reported as input, even if it also plays.
#[verifier::allow_in_spec]
pub fn device_type_label(bits: u32) -> DeviceTypeLabel
    returns
        (if bits & DEVICE_TYPE_INPUT == DEVICE_TYPE_INPUT {
            DeviceTypeLabel::Input
        } else if bits & DEVICE_TYPE_OUTPUT == DEVICE_TYPE_OUTPUT {
            DeviceTypeLabel::Output
        } else {
            DeviceTypeLabel::Unknown
        }),
{
    if bits & DEVICE_TYPE_INPUT == DEVICE_TYPE_INPUT {
        DeviceTypeLabel::Input
    } else if bits & DEVICE_TYPE_OUTPUT == DEVICE_TYPE_OUTPUT {
        DeviceTypeLabel::Output
    } else {
        DeviceTypeLabel::Unknown
    }
}

/// The name of a device's default format, which is a single format; any
/// other value has no name.
#[verifier::allow_in_spec]
pub fn default_format_name(bits: u32) -> Option<FormatName>
    returns
        (if bits == DEVICE_FMT_S16LE {
            Some(FormatName::S16LE)
        } else if bits == DEVICE_FMT_S16BE {
            Some(FormatName::S16BE)
        } else if bits == DEVICE_FMT_F32LE {
            Some(FormatName::F32LE)
        } else if bits == DEVICE_FMT_F32BE {
            Some(FormatName::F32BE)
        } else {
            None
        }),
{
    if bits == DEVICE_FMT_S16LE {
        Some(FormatName::S16LE)
    } else if bits == DEVICE_FMT_S16BE {
        Some(FormatName::S16BE)
    } else if bits == DEVICE_FMT_F32LE {
        Some(FormatName::F32LE)
    } else if bits == DEVICE_FMT_F32BE {
        Some(FormatName::F32BE)
    } else {
        None
    }
}

/// `name`, when `bits` holds the format bit `flag`.
pub open spec fn named_if(bits: u32, flag: u32, name: FormatName) -> Seq<FormatName> {
    if bits & flag == flag {
        seq![name]
    } else {
        Seq::empty()
    }
}

pub open spec fn spec_format_names(bits: u32) -> Seq<FormatName> {
    named_if(bits, DEVICE_FMT_S16LE, FormatName::S16LE) + named_if(
        bits,
        DEVICE_FMT_S16BE,
        FormatName::S16BE,
    ) + named_if(bits, DEVICE_FMT_F32LE, FormatName::F32LE) + named_if(
        bits,
        DEVICE_FMT_F32BE,
        FormatName::F32BE,
    )
}

/// The names of the formats a device supports, in a fixed order.
pub fn format_names(bits: u32) -> (names: Vec<FormatName>)
    ensures
        names@ == spec_format_names(bits),
{
    let mut names: Vec<FormatName> = Vec::new();
    if bits & DEVICE_FMT_S16LE == DEVICE_FMT_S16LE {
        names.push(FormatName::S16LE);
    }
    assert(names@ =~= named_if(bits, DEVICE_FMT_S16LE, FormatName::S16LE));
    let ghost a = names@;
    if bits & DEVICE_FMT_S16BE == DEVICE_FMT_S16BE {
        names.push(FormatName::S16BE);
    }
    assert(names@ =~= a + named_if(bits, DEVICE_FMT_S16BE, FormatName::S16BE));
    let ghost b = names@;
    if bits & DEVICE_FMT_F32LE == DEVICE_FMT_F32LE {
        names.push(FormatName::F32LE);
    }
    assert(names@ =~= b + named_if(bits, DEVICE_FMT_F32LE, FormatName::F32LE));
    let ghost c = names@;
    if bits & DEVICE_FMT_F32BE == DEVICE_FMT_F32BE {
        names.push(FormatName::F32BE);
    }
    assert(names@ =~= c + named_if(bits, DEVICE_FMT_F32BE, FormatName::F32BE));
    names
}

} // verus!
