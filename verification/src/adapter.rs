//! The adapter between the host and the control utility.

use crate::action::Action;
use crate::command::{
    active_source_frame, active_source_line, mute_line, query_line, tv_line, volume_down_line,
    volume_up_line,
};
use crate::model::{Adapter, Effect, StateManagerHandle};
use crate::power::{parsed_power_state, PowerState};
use vstd::prelude::*;

verus! {

/// The adapter: the state manager that is attached, and the power state that
/// was stored last.
pub struct HdmiCecProcess {
    state: Option<StateManagerHandle>,
    tv_state: Option<String>,
}

impl View for HdmiCecProcess {
    type V = Adapter;

    closed spec fn view(&self) -> Adapter {
        Adapter { manager: self.state, tv_state: self.tv_state.deep_view() }
    }
}

impl HdmiCecProcess {
    #[verifier::type_invariant]
    spec fn stores_on_or_off(&self) -> bool {
        self@.wf()
    }

    /// A new adapter, with no state manager and nothing stored.
    pub fn new() -> (adapter: Self)
        ensures
            adapter@ == Adapter::init(),
    {
        HdmiCecProcess { state: None, tv_state: None }
    }

    /// The state manager that is attached.
    pub fn statemanager(&self) -> (manager: Option<StateManagerHandle>)
        ensures
            manager == self@.manager,
    {
        self.state
    }

    /// The power state that was stored last: `ON`, `OFF`, or nothing yet.
    pub fn tv_state(&self) -> (stored: Option<String>)
        ensures
            stored.deep_view() == self@.tv_state,
            self@.wf(),
    {
        proof {
            use_type_invariant(self);
        }
        match &self.tv_state {
            Some(stored) => Some(stored.clone()),
            None => None,
        }
    }

    /// Attaches a state manager. It takes the place of any manager attached
    /// before.
    pub fn attach_statemanager(&mut self, statemanager: StateManagerHandle)
        ensures
            final(self)@ == old(self)@.attach(statemanager),
    {
        proof {
            use_type_invariant(&*self);
        }
        self.state = Some(statemanager);
    }

    /// Parses one line of the utility's output into a normalized state
    /// string.
    ///
    /// A line that begins with `power status:` yields `ON` for the status
    /// word `on`, `OFF` for `standby` and `UNKNOWN` for any other word. A
    /// line that begins otherwise yields nothing.
    pub fn parse_power_state(line: &str) -> (parsed: Option<String>)
        ensures
            parsed.deep_view() == parsed_power_state(line@),
    {
        match PowerState::from_line(line) {
            Some(state) => Some(state.as_str().to_owned()),
            None => None,
        }
    }

    /// Stores `ON` or `OFF` as the power state and hands it to the attached
    /// state manager. With no manager attached the state is stored all the
    /// same, and nobody is told.
    pub fn update_state(&mut self, state: bool) -> (actions: Vec<Action>)
        ensures
            final(self)@ == old(self)@.update_state(state).next,
            actions.deep_view() == old(self)@.update_state(state).effects,
    {
        let name = if state {
            PowerState::On.as_str()
        } else {
            PowerState::Off.as_str()
        };
        self.tv_state = Some(name.to_owned());
        let mut actions: Vec<Action> = Vec::new();
        match self.state {
            Some(manager) => {
                actions.push(Action::Update(manager, name.to_owned()));
            },
            None => {},
        }
        assert(actions.deep_view() =~= old(self)@.update_state(state).effects);
        actions
    }

    /// Takes in one line of the utility's output.
    ///
    /// A status line that reports `on` or `standby` updates the state as
    /// `update_state` does. Every other line, a status line with another
    /// word included, changes nothing and tells nobody.
    pub fn receive_line(&mut self, line: &str) -> (actions: Vec<Action>)
        ensures
            final(self)@ == old(self)@.receive(line@).next,
            actions.deep_view() == old(self)@.receive(line@).effects,
    {
        match PowerState::from_line(line) {
            Some(PowerState::On) => self.update_state(true),
            Some(PowerState::Off) => self.update_state(false),
            Some(PowerState::Unknown) | None => {
                let actions: Vec<Action> = Vec::new();
                assert(actions.deep_view() =~= Seq::<Effect>::empty());
                actions
            },
        }
    }

    /// Listens to the utility: takes in `lines`, its output so far unread,
    /// each line exactly once and in the order given, and returns what the
    /// host owes the state manager for them.
    ///
    /// Listening is for reporting, so a state manager must be attached.
    pub fn listen(&mut self, lines: &Vec<String>) -> (actions: Vec<Action>)
        requires
            old(self)@.manager.is_some(),
        ensures
            final(self)@ == old(self)@.listen(lines.deep_view()).next,
            actions.deep_view() == old(self)@.listen(lines.deep_view()).effects,
    {
        let mut actions: Vec<Action> = Vec::new();
        let mut i: usize = 0;
        assert(actions.deep_view() =~= Seq::<Effect>::empty());
        assert(lines.deep_view().take(0) =~= Seq::<Seq<char>>::empty());
        while i < lines.len()
            invariant
                i <= lines.len(),
                self@ == old(self)@.listen(lines.deep_view().take(i as int)).next,
                actions.deep_view() == old(self)@.listen(lines.deep_view().take(i as int)).effects,
            decreases lines.len() - i,
        {
            let ghost heard = lines.deep_view().take(i as int);
            let ghost before = actions.deep_view();
            let mut more = self.receive_line(lines[i].as_str());
            let ghost after = more.deep_view();
            actions.append(&mut more);
            proof {
                let next = lines.deep_view().take(i + 1);
                assert(next.drop_last() =~= heard);
                assert(next.last() == lines[i as int]@);
                assert(actions.deep_view() =~= before + after);
            }
            i += 1;
        }
        assert(lines.deep_view().take(i as int) =~= lines.deep_view());
        actions
    }

    /// Switches the television on, or puts it on standby.
    ///
    /// The command goes out first. The state is then updated at once, as
    /// `update_state` does, without waiting for the television to confirm.
    pub fn set_tv(&mut self, state: bool) -> (actions: Vec<Action>)
        ensures
            final(self)@ == old(self)@.set_tv(state).next,
            actions.deep_view() == old(self)@.set_tv(state).effects,
    {
        let command = if state {
            "on 0.0.0.0\n"
        } else {
            "standby 0.0.0.0\n"
        };
        let mut actions: Vec<Action> = Vec::new();
        actions.push(Action::Send(command.to_owned()));
        let mut update = self.update_state(state);
        let ghost sent = actions.deep_view();
        let ghost updated = update.deep_view();
        actions.append(&mut update);
        assert(sent =~= seq![Effect::Send(tv_line(state))]);
        assert(actions.deep_view() =~= sent + updated);
        actions
    }

    /// Asks the television for its power status. The answer comes later, as
    /// a status line of the utility.
    pub fn query_tv_state(&self) -> (actions: Vec<Action>)
        ensures
            actions.deep_view() == seq![Effect::Send(query_line())],
    {
        send("pow 0.0.0.0\n")
    }

    /// Raises the volume by one step.
    pub fn volume_up(&self) -> (actions: Vec<Action>)
        ensures
            actions.deep_view() == seq![Effect::Send(volume_up_line())],
    {
        send("volup\n")
    }

    /// Lowers the volume by one step.
    pub fn volume_down(&self) -> (actions: Vec<Action>)
        ensures
            actions.deep_view() == seq![Effect::Send(volume_down_line())],
    {
        send("voldown\n")
    }

    /// Toggles mute.
    pub fn mute(&self) -> (actions: Vec<Action>)
        ensures
            actions.deep_view() == seq![Effect::Send(mute_line())],
    {
        send("mute\n")
    }

    /// Makes `source` the active source. The frame has room for one
    /// hexadecimal digit, so `source` is at most 15.
    pub fn set_active_source(&self, source: usize) -> (actions: Vec<Action>)
        requires
            source <= 15,
        ensures
            actions.deep_view() == seq![Effect::Send(active_source_line(source as int))],
    {
        let mut actions: Vec<Action> = Vec::new();
        actions.push(Action::Send(active_source_frame(source)));
        assert(actions.deep_view() =~= seq![Effect::Send(active_source_line(source as int))]);
        actions
    }

    /// Terminates the utility.
    pub fn kill(&self) -> (actions: Vec<Action>)
        ensures
            actions.deep_view() == seq![Effect::Kill],
    {
        let mut actions: Vec<Action> = Vec::new();
        actions.push(Action::Kill);
        assert(actions.deep_view() =~= seq![Effect::Kill]);
        actions
    }
}

/// The single action of writing `line` to the utility.
fn send(line: &str) -> (actions: Vec<Action>)
    ensures
        actions.deep_view() == seq![Effect::Send(line@)],
{
    let mut actions: Vec<Action> = Vec::new();
    actions.push(Action::Send(line.to_owned()));
    assert(actions.deep_view() =~= seq![Effect::Send(line@)]);
    actions
}

} // verus!
