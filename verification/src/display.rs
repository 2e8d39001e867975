//! Names of the input sources a monitor reports over its control channel.

use vstd::prelude::*;

verus! {

/// The label of an input source, by the code the monitor reports for it.
pub open spec fn input_label(val: u8) -> Seq<char> {
    if val == 0x0f {
        "DisplayPort 1"@
    } else if val == 0x10 {
        "DisplayPort 2"@
    } else if val == 0x11 {
        "HDMI 1"@
    } else if val == 0x12 {
        "HDMI 2"@
    } else {
        "Unknown"@
    }
}

/// Names the input source that a monitor reports as `val`.
pub fn input_value_to_string(val: u8) -> (label: &'static str)
    ensures
        label@ == input_label(val),
{
    match val {
        0x0f => "DisplayPort 1",
        0x10 => "DisplayPort 2",
        0x11 => "HDMI 1",
        0x12 => "HDMI 2",
        _ => "Unknown",
    }
}

} // verus!
