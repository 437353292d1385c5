//! What holds of every run of the window reactor.

use vstd::prelude::*;
use crate::label::is_secondary_label;
use crate::reactor::{
    occurrences, spec_actions, spec_begin, spec_final, spec_step, Outcome, Protection,
    ReactorAction, ReactorEvent, ReactorState, Transition, MAX_ATTEMPTS,
};

verus! {

/// How many attempts the reactor may still start from `state`.
pub open spec fn budget(state: ReactorState) -> nat {
    match state {
        ReactorState::Settling => MAX_ATTEMPTS as nat,
        ReactorState::Locating => MAX_ATTEMPTS as nat,
        ReactorState::ReadingPreference => MAX_ATTEMPTS as nat,
        ReactorState::Protecting { attempt } => if attempt < MAX_ATTEMPTS {
            (MAX_ATTEMPTS - attempt) as nat
        } else {
            0
        },
        ReactorState::Pausing { attempt } => if attempt < MAX_ATTEMPTS {
            (MAX_ATTEMPTS - attempt) as nat
        } else {
            0
        },
        ReactorState::Showing { .. } => 0,
        ReactorState::Finished { .. } => 0,
    }
}

/// The host was asked to make the window visible, now or earlier.
pub open spec fn show_requested(state: ReactorState) -> bool {
    match state {
        ReactorState::Showing { .. } => true,
        ReactorState::Finished { outcome } => outcome is Shown || outcome is ShowFailed,
        _ => false,
    }
}

/// The event is the report that `state` waits for.
pub open spec fn awaited(state: ReactorState, event: ReactorEvent) -> bool {
    match state {
        ReactorState::Settling => event is DelayElapsed,
        ReactorState::Locating => event is WindowLookup,
        ReactorState::ReadingPreference => event is PreferenceRead,
        ReactorState::Protecting { .. } => event is ProtectFinished,
        ReactorState::Pausing { .. } => event is DelayElapsed,
        ReactorState::Showing { .. } => event is ShowFinished,
        ReactorState::Finished { .. } => false,
    }
}

/// An upper bound on the number of awaited events that `state` can still take.
pub open spec fn rank(state: ReactorState) -> nat {
    match state {
        ReactorState::Settling => 15,
        ReactorState::Locating => 14,
        ReactorState::ReadingPreference => 13,
        ReactorState::Protecting { attempt } => 2 + 2 * budget(state),
        ReactorState::Pausing { attempt } => if attempt < MAX_ATTEMPTS {
            1 + 2 * budget(state)
        } else {
            2
        },
        ReactorState::Showing { .. } => 1,
        ReactorState::Finished { .. } => 0,
    }
}

/// No event in `events` reports a preference that is on or unreadable.
pub open spec fn preference_stays_off(events: Seq<ReactorEvent>) -> bool {
    forall|i: int|
        0 <= i < events.len() ==> (#[trigger] events[i] matches ReactorEvent::PreferenceRead {
            enabled,
        } ==> enabled == Some(false))
}

/// 1 for `true`, 0 for `false`.
pub open spec fn count_of(flag: bool) -> nat {
    if flag {
        1
    } else {
        0
    }
}

/// Counting in a run goes event by event.
proof fn lemma_occurrences_unfold(
    state: ReactorState,
    events: Seq<ReactorEvent>,
    wanted: ReactorAction,
)
    requires
        events.len() > 0,
    ensures
        occurrences(spec_actions(state, events), wanted) == count_of(
            spec_step(state, events[0]).action == wanted,
        ) + occurrences(spec_actions(spec_step(state, events[0]).next, events.drop_first()), wanted),
{
    let first = spec_step(state, events[0]);
    let rest = spec_actions(first.next, events.drop_first());
    let all = spec_actions(state, events);
    assert(all == seq![first.action] + rest);
    assert(all[0] == first.action);
    assert(all.drop_first() =~= rest);
}

/// An awaited event brings the reactor strictly closer to its end; any
/// other event changes nothing and asks for nothing. So a reaction is over
/// after at most 15 awaited events.
pub proof fn law_every_awaited_event_makes_progress(state: ReactorState, event: ReactorEvent)
    ensures
        awaited(state, event) ==> rank(spec_step(state, event).next) < rank(state),
        !awaited(state, event) ==> spec_step(state, event) == (Transition {
            next: state,
            action: ReactorAction::Nothing,
        }),
        rank(state) <= 15,
{
}

/// Starting an attempt uses up one unit of the budget; no other step adds
/// to it.
pub proof fn law_each_attempt_spends_budget(state: ReactorState, event: ReactorEvent)
    ensures
        budget(spec_step(state, event).next) + count_of(
            spec_step(state, event).action == ReactorAction::Protect,
        ) <= budget(state),
{
}

/// Whatever the host reports, and in whatever order, the reactor asks for
/// at most five attempts to protect one window.
pub proof fn law_attempts_are_bounded(state: ReactorState, events: Seq<ReactorEvent>)
    ensures
        occurrences(spec_actions(state, events), ReactorAction::Protect) <= budget(state),
        budget(state) <= MAX_ATTEMPTS,
    decreases events.len(),
{
    if events.len() > 0 {
        let first = spec_step(state, events[0]);
        lemma_occurrences_unfold(state, events, ReactorAction::Protect);
        law_each_attempt_spends_budget(state, events[0]);
        law_attempts_are_bounded(first.next, events.drop_first());
    }
}

/// Once the host has been asked to make the window visible, no attempt to
/// protect it follows: every attempt comes before the window is shown.
pub proof fn law_no_attempt_after_show(state: ReactorState, events: Seq<ReactorEvent>)
    requires
        show_requested(state),
    ensures
        occurrences(spec_actions(state, events), ReactorAction::Protect) == 0,
{
    law_attempts_are_bounded(state, events);
}

/// The reactor asks for the window to be shown while an attempt is under
/// way only when that attempt succeeded or was the last one allowed.
pub proof fn law_show_waits_for_protection(attempt: u8, event: ReactorEvent)
    requires
        spec_step(ReactorState::Protecting { attempt }, event).action == ReactorAction::Show,
    ensures
        event matches ReactorEvent::ProtectFinished { succeeded } && (succeeded || attempt
            >= MAX_ATTEMPTS),
{
}

/// In every run the host is asked at most once to make the window visible:
/// exactly once where the run passes from a state before that request to
/// one after it, and never otherwise.
pub proof fn law_window_is_shown_once(state: ReactorState, events: Seq<ReactorEvent>)
    ensures
        occurrences(spec_actions(state, events), ReactorAction::Show) + count_of(
            show_requested(state),
        ) == count_of(show_requested(spec_final(state, events))),
    decreases events.len(),
{
    if events.len() > 0 {
        let first = spec_step(state, events[0]);
        lemma_occurrences_unfold(state, events, ReactorAction::Show);
        law_window_is_shown_once(first.next, events.drop_first());
    }
}

/// A window that was found is shown whatever becomes of its protection:
/// from the reading of the preference on, a reaction cannot end without the
/// host having been asked, exactly once, to make the window visible.
pub proof fn law_found_window_is_always_shown(state: ReactorState, events: Seq<ReactorEvent>)
    requires
        state is ReadingPreference || state is Protecting || state is Pausing || show_requested(
            state,
        ),
    ensures
        spec_final(state, events) is Finished ==> show_requested(spec_final(state, events)),
        spec_final(state, events) is Finished ==> occurrences(
            spec_actions(state, events),
            ReactorAction::Show,
        ) + count_of(show_requested(state)) == 1,
    decreases events.len(),
{
    law_window_is_shown_once(state, events);
    if events.len() > 0 {
        let first = spec_step(state, events[0]);
        law_found_window_is_always_shown(first.next, events.drop_first());
    }
}

/// While the preference is off, no attempt to protect a window is made.
pub proof fn law_no_attempt_while_disabled(state: ReactorState, events: Seq<ReactorEvent>)
    requires
        preference_stays_off(events),
        !(state is Protecting),
        !(state is Pausing),
    ensures
        occurrences(spec_actions(state, events), ReactorAction::Protect) == 0,
    decreases events.len(),
{
    if events.len() > 0 {
        let first = spec_step(state, events[0]);
        let rest = events.drop_first();
        lemma_occurrences_unfold(state, events, ReactorAction::Protect);
        assert(events[0] matches ReactorEvent::PreferenceRead { enabled } ==> enabled == Some(
            false,
        ));
        assert forall|i: int| 0 <= i < rest.len() implies (#[trigger] rest[i] matches ReactorEvent::PreferenceRead {
            enabled,
        } ==> enabled == Some(false)) by {
            assert(rest[i] == events[i + 1]);
        }
        law_no_attempt_while_disabled(first.next, rest);
    }
}

/// With the preference off, a new secondary window that is found is shown
/// as the answer to the preference, with no attempt to protect it, whatever
/// the host reports afterwards.
pub proof fn law_disabled_window_is_shown_unprotected(later: Seq<ReactorEvent>)
    ensures
        ({
            let events = seq![
                ReactorEvent::DelayElapsed,
                ReactorEvent::WindowLookup { found: true },
                ReactorEvent::PreferenceRead { enabled: Some(false) },
            ] + later;
            let actions = spec_actions(ReactorState::Settling, events);
            &&& actions.len() == events.len()
            &&& actions[2] == ReactorAction::Show
            &&& occurrences(actions, ReactorAction::Protect) == 0
            &&& occurrences(actions, ReactorAction::Show) == 1
        }),
{
    let e0 = ReactorEvent::DelayElapsed;
    let e1 = ReactorEvent::WindowLookup { found: true };
    let e2 = ReactorEvent::PreferenceRead { enabled: Some(false) };
    let events = seq![e0, e1, e2] + later;
    let events1 = seq![e1, e2] + later;
    let events2 = seq![e2] + later;
    let showing = ReactorState::Showing { protection: Protection::Skipped };
    assert(events.drop_first() =~= events1);
    assert(events1.drop_first() =~= events2);
    assert(events2.drop_first() =~= later);
    assert(events[0] == e0 && events1[0] == e1 && events2[0] == e2);
    let a3 = spec_actions(showing, later);
    let a2 = spec_actions(ReactorState::ReadingPreference, events2);
    let a1 = spec_actions(ReactorState::Locating, events1);
    let a0 = spec_actions(ReactorState::Settling, events);
    assert(a2 == seq![ReactorAction::Show] + a3);
    assert(a1 == seq![ReactorAction::ReadPreference] + a2);
    assert(a0 == seq![ReactorAction::FindWindow] + a1);
    lemma_actions_len(showing, later);
    assert(a0[2] == ReactorAction::Show);
    lemma_occurrences_unfold(ReactorState::Settling, events, ReactorAction::Protect);
    lemma_occurrences_unfold(ReactorState::Locating, events1, ReactorAction::Protect);
    lemma_occurrences_unfold(ReactorState::ReadingPreference, events2, ReactorAction::Protect);
    lemma_occurrences_unfold(ReactorState::Settling, events, ReactorAction::Show);
    lemma_occurrences_unfold(ReactorState::Locating, events1, ReactorAction::Show);
    lemma_occurrences_unfold(ReactorState::ReadingPreference, events2, ReactorAction::Show);
    law_no_attempt_after_show(showing, later);
    law_window_is_shown_once(showing, later);
}

/// A run asks for one action for each event.
proof fn lemma_actions_len(state: ReactorState, events: Seq<ReactorEvent>)
    ensures
        spec_actions(state, events).len() == events.len(),
    decreases events.len(),
{
    if events.len() > 0 {
        lemma_actions_len(spec_step(state, events[0]).next, events.drop_first());
    }
}

/// A reaction that is over stays over and asks for nothing more.
pub proof fn law_finished_is_final(outcome: Outcome, events: Seq<ReactorEvent>)
    ensures
        spec_final(ReactorState::Finished { outcome }, events) == (ReactorState::Finished {
            outcome,
        }),
        forall|i: int|
            0 <= i < events.len() ==> #[trigger] spec_actions(
                ReactorState::Finished { outcome },
                events,
            )[i] == ReactorAction::Nothing,
        spec_actions(ReactorState::Finished { outcome }, events).len() == events.len(),
    decreases events.len(),
{
    let state = ReactorState::Finished { outcome };
    if events.len() > 0 {
        law_finished_is_final(outcome, events.drop_first());
        let rest = spec_actions(state, events.drop_first());
        let all = spec_actions(state, events);
        assert(all == seq![ReactorAction::Nothing] + rest);
        assert forall|i: int| 0 <= i < events.len() implies #[trigger] all[i]
            == ReactorAction::Nothing by {
            if i > 0 {
                assert(all[i] == rest[i - 1]);
            }
        }
    }
}

/// A creation notice without a label, or with the label of a window that is
/// not secondary, leads to nothing: no wait, no attempt to protect the
/// window, no request to show it, whatever is reported afterwards.
pub proof fn law_other_windows_are_ignored(label: Option<Seq<char>>, events: Seq<ReactorEvent>)
    requires
        label is None || !is_secondary_label(label->0),
    ensures
        spec_begin(label).action == ReactorAction::Nothing,
        forall|i: int|
            0 <= i < events.len() ==> #[trigger] spec_actions(spec_begin(label).next, events)[i]
                == ReactorAction::Nothing,
        occurrences(spec_actions(spec_begin(label).next, events), ReactorAction::Protect) == 0,
        occurrences(spec_actions(spec_begin(label).next, events), ReactorAction::Show) == 0,
{
    law_finished_is_final(Outcome::Ignored, events);
    law_attempts_are_bounded(spec_begin(label).next, events);
    law_window_is_shown_once(spec_begin(label).next, events);
}

/// A creation notice with the label of a secondary window starts a
/// reaction, which may ask for up to five attempts.
pub proof fn law_secondary_windows_are_reacted_to(label: Seq<char>)
    requires
        is_secondary_label(label),
    ensures
        spec_begin(Some(label)).next == ReactorState::Settling,
        spec_begin(Some(label)).action is Wait,
        budget(spec_begin(Some(label)).next) == MAX_ATTEMPTS,
{
}

} // verus!
