//! The lines that are written to the utility, each with its line feed.

use vstd::prelude::*;

verus! {

/// Raises the volume by one step.
pub open spec fn volume_up_line() -> Seq<char> {
    "volup\n"@
}

/// Lowers the volume by one step.
pub open spec fn volume_down_line() -> Seq<char> {
    "voldown\n"@
}

/// Toggles mute.
pub open spec fn mute_line() -> Seq<char> {
    "mute\n"@
}

/// Asks the device at the root of the bus for its power status.
pub open spec fn query_line() -> Seq<char> {
    "pow 0.0.0.0\n"@
}

/// Switches the device at the root of the bus on, or puts it on standby.
pub open spec fn tv_line(on: bool) -> Seq<char> {
    if on {
        "on 0.0.0.0\n"@
    } else {
        "standby 0.0.0.0\n"@
    }
}

/// The sixteen hexadecimal digits, in order of their value.
pub open spec fn hex_digits() -> Seq<char> {
    "0123456789ABCDEF"@
}

/// The frame that makes `source` the active source: the broadcast template
/// `tx 1F:82:_0:00` with the hexadecimal digit of `source` in the gap.
pub open spec fn active_source_line(source: int) -> Seq<char>
    recommends
        0 <= source < 16,
{
    "tx 1F:82:"@ + seq![hex_digits()[source]] + "0:00\n"@
}

/// Builds the frame that makes `source` the active source.
pub fn active_source_frame(source: usize) -> (line: String)
    requires
        source < 16,
    ensures
        line@ == active_source_line(source as int),
{
    proof {
        reveal_strlit("0123456789ABCDEF");
    }
    let digit = "0123456789ABCDEF".substring_char(source, source + 1);
    assert(digit@ == seq![hex_digits()[source as int]]);
    let mut line = String::from_str("tx 1F:82:");
    line.append(digit);
    line.append("0:00\n");
    line
}

} // verus!
