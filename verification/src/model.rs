//! The adapter as a state machine over mathematical values.
//!
//! A state holds the attached state manager, if any, and the last power state
//! that was stored. Each operation takes a state to the next one and yields
//! the effects that the host carries out, in order.

use crate::command::tv_line;
use crate::power::{reported_power, state_name};
use vstd::prelude::*;

verus! {

/// Names one state manager of the host. The adapter never looks inside a
/// manager: it only says which one is handed a state.
#[derive(Clone, Copy, Debug, PartialEq, Eq, Structural)]
pub struct StateManagerHandle {
    pub id: u64,
}

/// One thing that the host does on the adapter's behalf.
pub enum Effect {
    /// Write these characters to the utility's input.
    Send(Seq<char>),
    /// Hand this normalized state to this state manager.
    Update(StateManagerHandle, Seq<char>),
    /// Terminate the utility.
    Kill,
}

/// The state of the adapter.
pub struct Adapter {
    /// The state manager that updates go to.
    pub manager: Option<StateManagerHandle>,
    /// The power state stored last.
    pub tv_state: Option<Seq<char>>,
}

/// The outcome of one operation.
pub struct Step {
    pub next: Adapter,
    pub effects: Seq<Effect>,
}

impl Adapter {
    /// The state of a new adapter: no manager, nothing stored.
    pub open spec fn init() -> Adapter {
        Adapter { manager: None, tv_state: None }
    }

    /// Only `ON` and `OFF` are ever stored.
    pub open spec fn wf(self) -> bool {
        self.tv_state matches Some(stored) ==> stored == state_name(true) || stored == state_name(
            false,
        )
    }

    /// Leaves the state as it is and yields `effects`.
    pub open spec fn stay(self, effects: Seq<Effect>) -> Step {
        Step { next: self, effects }
    }

    /// Attaches `manager` in place of any manager attached before.
    pub open spec fn attach(self, manager: StateManagerHandle) -> Adapter {
        Adapter { manager: Some(manager), ..self }
    }

    /// Stores the state and hands it to the attached manager, if there is
    /// one.
    pub open spec fn update_state(self, on: bool) -> Step {
        Step {
            next: Adapter { tv_state: Some(state_name(on)), ..self },
            effects: match self.manager {
                Some(manager) => seq![Effect::Update(manager, state_name(on))],
                None => Seq::empty(),
            },
        }
    }

    /// Sends the switch command, then updates the state without waiting for
    /// the television to confirm.
    pub open spec fn set_tv(self, on: bool) -> Step {
        Step {
            next: self.update_state(on).next,
            effects: seq![Effect::Send(tv_line(on))] + self.update_state(on).effects,
        }
    }

    /// Takes in one line of the utility's output. A line that reports the
    /// television as on or as off updates the state; every other line changes
    /// nothing.
    pub open spec fn receive(self, line: Seq<char>) -> Step {
        match reported_power(line) {
            Some(on) => self.update_state(on),
            None => self.stay(Seq::empty()),
        }
    }

    /// Takes in the lines one after the other, each exactly once.
    pub open spec fn listen(self, lines: Seq<Seq<char>>) -> Step
        decreases lines.len(),
    {
        if lines.len() == 0 {
            self.stay(Seq::empty())
        } else {
            let before = self.listen(lines.drop_last());
            let last = before.next.receive(lines.last());
            Step { next: last.next, effects: before.effects + last.effects }
        }
    }
}

} // verus!
