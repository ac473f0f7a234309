//! The power state of the television, as the utility reports it.
//!
//! The utility prints free-form text. One shape of line carries the power
//! state: the literal `power status:`, one further character, and then the
//! status word, which runs to the end of the line. The word is taken by
//! position, after the first fourteen characters of the line.

use crate::text::{has_prefix, matches_at, occurs_at};
use vstd::prelude::*;

verus! {

/// What a status line says about the television's power.
#[derive(Clone, Copy, Debug, PartialEq, Eq, Structural)]
pub enum PowerState {
    On,
    Off,
    Unknown,
}

/// The literal that opens every status line.
pub open spec fn status_prefix() -> Seq<char> {
    "power status:"@
}

/// The status word of a line: whatever follows its first fourteen characters.
/// A line shorter than that has the empty word.
pub open spec fn status_word(line: Seq<char>) -> Seq<char> {
    if line.len() >= 14 {
        line.subrange(14, line.len() as int)
    } else {
        Seq::empty()
    }
}

/// The power state that a status word stands for.
pub open spec fn power_state_of_word(word: Seq<char>) -> PowerState {
    if word == "on"@ {
        PowerState::On
    } else if word == "standby"@ {
        PowerState::Off
    } else {
        PowerState::Unknown
    }
}

/// The power state that a line of the utility's output reports, if it is a
/// status line at all.
pub open spec fn power_state_of_line(line: Seq<char>) -> Option<PowerState> {
    if has_prefix(line, status_prefix()) {
        Some(power_state_of_word(status_word(line)))
    } else {
        None
    }
}

/// Whether a line reports the television as on (`true`) or as off (`false`).
/// A line that is no status line, or whose state is unknown, reports neither.
pub open spec fn reported_power(line: Seq<char>) -> Option<bool> {
    match power_state_of_line(line) {
        Some(PowerState::On) => Some(true),
        Some(PowerState::Off) => Some(false),
        _ => None,
    }
}

/// What parsing a line yields: the normalized string of the state that the
/// line reports, `UNKNOWN` included, or nothing for a line that is no status
/// line.
pub open spec fn parsed_power_state(line: Seq<char>) -> Option<Seq<char>> {
    match power_state_of_line(line) {
        Some(state) => Some(state.name()),
        None => None,
    }
}

/// The normalized string that is stored and handed on for a television that
/// is on (`ON`) or is not (`OFF`).
pub open spec fn state_name(on: bool) -> Seq<char> {
    if on {
        PowerState::On.name()
    } else {
        PowerState::Off.name()
    }
}

/// A line has a given non-empty status word exactly when the word stands at
/// the fifteenth character and ends the line.
pub proof fn lemma_status_word_is(line: Seq<char>, word: Seq<char>)
    requires
        word.len() > 0,
    ensures
        status_word(line) == word <==> line.len() == 14 + word.len() && occurs_at(line, 14, word),
{
    if line.len() >= 14 {
        if line.len() == 14 + word.len() {
            assert(line.subrange(14, 14 + word.len() as int) == status_word(line));
        } else {
            assert(status_word(line).len() == line.len() - 14);
        }
    } else {
        assert(status_word(line).len() == 0);
    }
}

impl PowerState {
    /// The normalized string for this state.
    pub open spec fn name(self) -> Seq<char> {
        match self {
            PowerState::On => "ON"@,
            PowerState::Off => "OFF"@,
            PowerState::Unknown => "UNKNOWN"@,
        }
    }

    /// The normalized string for this state: `ON`, `OFF` or `UNKNOWN`.
    pub fn as_str(&self) -> (name: &'static str)
        ensures
            name@ == self.name(),
    {
        match self {
            PowerState::On => "ON",
            PowerState::Off => "OFF",
            PowerState::Unknown => "UNKNOWN",
        }
    }

    /// Reads one line of the utility's output.
    ///
    /// A line that does not begin with `power status:` reports nothing. Any
    /// other line reports a state: `On` for the word `on`, `Off` for
    /// `standby`, and `Unknown` for every other word.
    pub fn from_line(line: &str) -> (state: Option<PowerState>)
        ensures
            state == power_state_of_line(line@),
    {
        if !matches_at(line, 0, "power status:") {
            return None;
        }
        let len: usize = line.unicode_len();
        proof {
            reveal_strlit("on");
            reveal_strlit("standby");
            lemma_status_word_is(line@, "on"@);
            lemma_status_word_is(line@, "standby"@);
        }
        if len == 16 && matches_at(line, 14, "on") {
            Some(PowerState::On)
        } else if len == 21 && matches_at(line, 14, "standby") {
            Some(PowerState::Off)
        } else {
            Some(PowerState::Unknown)
        }
    }
}

} // verus!
