//! What holds of the parser and of the adapter, whatever the input.

use crate::model::{Adapter, Effect, StateManagerHandle};
use crate::power::{parsed_power_state, reported_power, state_name, status_prefix, status_word};
use crate::text::has_prefix;
use vstd::prelude::*;

verus! {

/// A status line is the literal `power status:`, one separating character (a
/// space, in the utility's output) and a word. Parsing it yields `ON` for the
/// word `on`, `OFF` for the word `standby` and `UNKNOWN` for any other word.
pub proof fn lemma_parse_status_line(separator: char, word: Seq<char>)
    ensures
        parsed_power_state(status_prefix() + seq![separator] + word) == Some(
            if word == "on"@ {
                "ON"@
            } else if word == "standby"@ {
                "OFF"@
            } else {
                "UNKNOWN"@
            },
        ),
{
    reveal_strlit("power status:");
    let line = status_prefix() + seq![separator] + word;
    assert(line.subrange(0, 13) =~= status_prefix());
    assert(status_word(line) =~= word);
}

/// A line that does not begin with the literal `power status:` yields
/// nothing, and no other line does.
pub proof fn lemma_parse_other_line(line: Seq<char>)
    ensures
        parsed_power_state(line) is None <==> !has_prefix(line, status_prefix()),
{
}

/// Parsing depends on the line alone: any two results for the same line
/// hold the same string, or are both nothing.
pub proof fn lemma_parse_is_a_function_of_the_line(
    line: Seq<char>,
    first: Option<String>,
    second: Option<String>,
)
    requires
        first.deep_view() == parsed_power_state(line),
        second.deep_view() == parsed_power_state(line),
    ensures
        first.deep_view() == second.deep_view(),
        first is Some <==> second is Some,
        first is Some ==> first->0@ == second->0@,
{
}

/// The three normalized strings differ from one another.
pub proof fn lemma_states_differ()
    ensures
        "ON"@ != "OFF"@,
        "ON"@ != "UNKNOWN"@,
        "OFF"@ != "UNKNOWN"@,
{
    reveal_strlit("ON");
    reveal_strlit("OFF");
    reveal_strlit("UNKNOWN");
    assert("ON"@.len() == 2 && "OFF"@.len() == 3 && "UNKNOWN"@.len() == 7);
}

/// Once a state manager is attached, an update reaches that manager exactly
/// once: with `ON` for `true`, with `OFF` for `false`.
pub proof fn lemma_attached_manager_is_told_once(
    adapter: Adapter,
    manager: StateManagerHandle,
    on: bool,
)
    ensures
        adapter.attach(manager).update_state(on).effects == seq![
            Effect::Update(
                manager,
                if on {
                    "ON"@
                } else {
                    "OFF"@
                },
            ),
        ],
{
}

/// An update that comes before any state manager is attached is stored and
/// reaches nobody. A manager attached afterwards never sees it: the next
/// update reaches that manager alone, and only with its own state.
pub proof fn lemma_missed_update_is_not_replayed(
    adapter: Adapter,
    missed: bool,
    manager: StateManagerHandle,
    later: bool,
)
    requires
        adapter.manager is None,
    ensures
        adapter.update_state(missed).effects == Seq::<Effect>::empty(),
        adapter.update_state(missed).next.tv_state == Some(state_name(missed)),
        adapter.update_state(missed).next.manager is None,
        adapter.update_state(missed).next.attach(manager).update_state(later).effects == seq![
            Effect::Update(manager, state_name(later)),
        ],
{
}

/// At most one state manager is attached: a second one takes the place of
/// the first.
pub proof fn lemma_attach_replaces(
    adapter: Adapter,
    first: StateManagerHandle,
    second: StateManagerHandle,
)
    ensures
        adapter.attach(first).attach(second) == adapter.attach(second),
        adapter.attach(first).tv_state == adapter.tv_state,
{
}

/// What `set_tv` stores is provisional. A status line that reports the
/// opposite overwrites it, and the attached state manager is told again.
pub proof fn lemma_status_line_overrides_set_tv(
    adapter: Adapter,
    manager: StateManagerHandle,
    on: bool,
    line: Seq<char>,
)
    requires
        adapter.manager == Some(manager),
        reported_power(line) == Some(!on),
    ensures
        adapter.set_tv(on).next.tv_state == Some(state_name(on)),
        adapter.set_tv(on).next.receive(line).next.tv_state == Some(state_name(!on)),
        adapter.set_tv(on).next.receive(line).effects == seq![
            Effect::Update(manager, state_name(!on)),
        ],
{
}

/// Listening to one line is taking in that line.
pub proof fn lemma_listen_to_one_line(adapter: Adapter, line: Seq<char>)
    ensures
        adapter.listen(seq![line]) == adapter.receive(line),
{
    let lines = seq![line];
    assert(lines.drop_last() =~= Seq::<Seq<char>>::empty());
    assert(adapter.listen(lines.drop_last()) == adapter.stay(Seq::empty()));
    assert(Seq::<Effect>::empty() + adapter.receive(line).effects =~= adapter.receive(
        line,
    ).effects);
}

/// Nothing is held back between two rounds of listening: to listen to
/// `first` and then to `second` is to listen to the two in one round.
pub proof fn lemma_listen_in_rounds(
    adapter: Adapter,
    first: Seq<Seq<char>>,
    second: Seq<Seq<char>>,
)
    ensures
        adapter.listen(first + second).next == adapter.listen(first).next.listen(second).next,
        adapter.listen(first + second).effects == adapter.listen(first).effects
            + adapter.listen(first).next.listen(second).effects,
    decreases second.len(),
{
    let halfway = adapter.listen(first);
    if second.len() == 0 {
        assert(first + second =~= first);
        assert(halfway.effects + Seq::<Effect>::empty() =~= halfway.effects);
    } else {
        lemma_listen_in_rounds(adapter, first, second.drop_last());
        assert((first + second).drop_last() =~= first + second.drop_last());
        assert((first + second).last() == second.last());
        let before = halfway.next.listen(second.drop_last());
        let last = before.next.receive(second.last());
        assert(halfway.effects + (before.effects + last.effects) =~= (halfway.effects
            + before.effects) + last.effects);
    }
}

/// Taking in a line never attaches or detaches a state manager, and so
/// neither does listening.
pub proof fn lemma_listen_keeps_manager(adapter: Adapter, lines: Seq<Seq<char>>)
    ensures
        adapter.listen(lines).next.manager == adapter.manager,
    decreases lines.len(),
{
    if lines.len() > 0 {
        lemma_listen_keeps_manager(adapter, lines.drop_last());
    }
}

/// Only `ON` and `OFF` are ever stored: every operation takes a state of
/// which that holds to another such state.
pub proof fn lemma_stored_state_is_on_or_off(
    adapter: Adapter,
    manager: StateManagerHandle,
    on: bool,
    lines: Seq<Seq<char>>,
)
    requires
        adapter.wf(),
    ensures
        Adapter::init().wf(),
        adapter.attach(manager).wf(),
        adapter.update_state(on).next.wf(),
        adapter.set_tv(on).next.wf(),
        adapter.listen(lines).next.wf(),
    decreases lines.len(),
{
    if lines.len() > 0 {
        lemma_stored_state_is_on_or_off(adapter, manager, on, lines.drop_last());
    }
}

/// Whether `effect` hands `ON` or `OFF` to `manager`.
pub open spec fn tells(effect: Effect, manager: StateManagerHandle) -> bool {
    effect == Effect::Update(manager, state_name(true)) || effect == Effect::Update(
        manager,
        state_name(false),
    )
}

/// While listening, nothing is written to the utility and only `ON` and
/// `OFF` are handed on, to the attached state manager: never `UNKNOWN`.
pub proof fn lemma_listen_tells_on_or_off(
    adapter: Adapter,
    manager: StateManagerHandle,
    lines: Seq<Seq<char>>,
)
    requires
        adapter.manager == Some(manager),
    ensures
        forall|i: int|
            0 <= i < adapter.listen(lines).effects.len() ==> tells(
                #[trigger] adapter.listen(lines).effects[i],
                manager,
            ),
    decreases lines.len(),
{
    if lines.len() > 0 {
        lemma_listen_tells_on_or_off(adapter, manager, lines.drop_last());
        lemma_listen_keeps_manager(adapter, lines.drop_last());
    }
}

/// What a line makes the adapter hand to `manager`: the state that the line
/// reports, if it reports one.
pub open spec fn told_for(manager: StateManagerHandle) -> spec_fn(Seq<char>) -> Option<Effect> {
    |line: Seq<char>|
        match reported_power(line) {
            Some(on) => Some(Effect::Update(manager, state_name(on))),
            None => None,
        }
}

/// Every line is taken in exactly once and in order. While `manager` is
/// attached, listening hands it one state for each line that reports one, in
/// the order of the lines, and nothing for the other lines. What is stored
/// afterwards is what the last such line reports; if there is none, it is
/// what was stored before.
pub proof fn lemma_listen_tells_each_report_once(
    adapter: Adapter,
    manager: StateManagerHandle,
    lines: Seq<Seq<char>>,
)
    requires
        adapter.manager == Some(manager),
    ensures
        adapter.listen(lines).effects == lines.filter_map(told_for(manager)),
        adapter.listen(lines).next.tv_state == ({
            let reports = lines.filter_map(|line: Seq<char>| reported_power(line));
            if reports.len() == 0 {
                adapter.tv_state
            } else {
                Some(state_name(reports.last()))
            }
        }),
    decreases lines.len(),
{
    let reported = |line: Seq<char>| reported_power(line);
    if lines.len() == 0 {
        assert(adapter.listen(lines).effects =~= lines.filter_map(told_for(manager)));
    } else {
        lemma_listen_tells_each_report_once(adapter, manager, lines.drop_last());
        lemma_listen_keeps_manager(adapter, lines.drop_last());
        let before = adapter.listen(lines.drop_last());
        let told = lines.drop_last().filter_map(told_for(manager));
        match reported_power(lines.last()) {
            Some(on) => {
                assert(lines.filter_map(reported) == lines.drop_last().filter_map(reported)
                    + seq![on]);
            },
            None => {
                assert(told + Seq::<Effect>::empty() =~= told);
            },
        }
    }
}

} // verus!
