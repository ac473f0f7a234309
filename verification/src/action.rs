//! What the adapter asks of its host.

use crate::model::{Effect, StateManagerHandle};
use vstd::prelude::*;

verus! {

/// One thing that the host does on the adapter's behalf. The operations of
/// the adapter return the actions they call for, in the order in which the
/// host performs them.
#[derive(Debug, PartialEq, Eq)]
pub enum Action {
    /// Write this line to the utility's input. The line ends in a line feed.
    Send(String),
    /// Hand this normalized state to this state manager.
    Update(StateManagerHandle, String),
    /// Terminate the utility.
    Kill,
}

impl DeepView for Action {
    type V = Effect;

    open spec fn deep_view(&self) -> Effect {
        match self {
            Action::Send(line) => Effect::Send(line@),
            Action::Update(manager, state) => Effect::Update(*manager, state@),
            Action::Kill => Effect::Kill,
        }
    }
}

impl Clone for Action {
    fn clone(&self) -> (copy: Self)
        ensures
            copy.deep_view() == self.deep_view(),
    {
        match self {
            Action::Send(line) => Action::Send(line.clone()),
            Action::Update(manager, state) => Action::Update(*manager, state.clone()),
            Action::Kill => Action::Kill,
        }
    }
}

} // verus!
