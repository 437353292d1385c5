//! The reaction to a newly created window, as a state machine.
//!
//! A new secondary window is given time to initialise, is then protected
//! according to the preference, and is made visible whether or not the
//! protection took. The host performs each action and reports back with an
//! event; this module decides what comes next.

use vstd::prelude::*;
use crate::preference::ProtectionState;
use crate::label::{created_window_label, is_secondary_label, is_secondary_window, json_string_member, label_key, text_of};

verus! {

/// How long a new window is left alone before anything is done to it.
pub const SETTLE_DELAY_MS: u64 = 800;

/// How long the reactor waits between two attempts to protect a window.
pub const RETRY_DELAY_MS: u64 = 100;

/// How often, at most, the reactor tries to protect one window.
pub const MAX_ATTEMPTS: u8 = 5;

/// How long the main window is left alone at startup before its one
/// attempt at protection.
pub const MAIN_WINDOW_DELAY_MS: u64 = 1000;

/// What became of the protection of a window that is being shown.
#[derive(Clone, Copy, Debug, PartialEq, Eq)]
pub enum Protection {
    /// An attempt succeeded.
    Applied,
    /// Every attempt failed.
    Failed,
    /// The preference was off: nothing was attempted.
    Skipped,
}

/// How a reaction ended.
#[derive(Clone, Copy, Debug, PartialEq, Eq)]
pub enum Outcome {
    /// The notice named no secondary window.
    Ignored,
    /// The window was gone when the reactor looked for it.
    WindowMissing,
    /// The window was made visible.
    Shown { protection: Protection },
    /// The host could not make the window visible.
    ShowFailed { protection: Protection },
}

/// Where a reaction stands: what the host was last asked to do.
#[derive(Clone, Copy, Debug, PartialEq, Eq)]
pub enum ReactorState {
    /// Waiting for the window to initialise.
    Settling,
    /// Looking the window up by its label.
    Locating,
    /// Reading the preference.
    ReadingPreference,
    /// The attempt with this number is under way.
    Protecting { attempt: u8 },
    /// Waiting after the failed attempt with this number.
    Pausing { attempt: u8 },
    /// The window is being made visible.
    Showing { protection: Protection },
    /// Nothing is left to do.
    Finished { outcome: Outcome },
}

/// What the host reports back.
#[derive(Clone, Copy, Debug, PartialEq, Eq)]
pub enum ReactorEvent {
    /// The wait that was asked for is over.
    DelayElapsed,
    /// The window was looked up.
    WindowLookup { found: bool },
    /// The preference was read; `None` where it could not be read.
    PreferenceRead { enabled: Option<bool> },
    /// An attempt to protect the window ended.
    ProtectFinished { succeeded: bool },
    /// The attempt to make the window visible ended.
    ShowFinished { succeeded: bool },
}

/// What the host is asked to do next.
#[derive(Clone, Copy, Debug, PartialEq, Eq)]
pub enum ReactorAction {
    /// Nothing: the event was not awaited, or the reaction is over.
    Nothing,
    /// Wait this long, then report `DelayElapsed`.
    Wait { millis: u64 },
    /// Look the window up, then report `WindowLookup`.
    FindWindow,
    /// Read the preference, then report `PreferenceRead`.
    ReadPreference,
    /// Try to exclude the window from capture, then report `ProtectFinished`.
    Protect,
    /// Make the window visible, then report `ShowFinished`.
    Show,
}

/// A step of the reactor: the state it moves to and what it asks for.
#[derive(Clone, Copy, Debug, PartialEq, Eq)]
pub struct Transition {
    pub next: ReactorState,
    pub action: ReactorAction,
}

/// A preference that could not be read counts as switched on.
pub open spec fn preference_or_default(enabled: Option<bool>) -> bool {
    match enabled {
        Some(value) => value,
        None => true,
    }
}

/// The reaction to a creation notice that carries `label`.
pub open spec fn spec_begin(label: Option<Seq<char>>) -> Transition {
    if label is Some && is_secondary_label(label->0) {
        Transition {
            next: ReactorState::Settling,
            action: ReactorAction::Wait { millis: SETTLE_DELAY_MS },
        }
    } else {
        Transition {
            next: ReactorState::Finished { outcome: Outcome::Ignored },
            action: ReactorAction::Nothing,
        }
    }
}

/// The reactor's transition relation. An event that the state does not
/// await changes nothing and asks for nothing.
pub open spec fn spec_step(state: ReactorState, event: ReactorEvent) -> Transition {
    match (state, event) {
        (ReactorState::Settling, ReactorEvent::DelayElapsed) => Transition {
            next: ReactorState::Locating,
            action: ReactorAction::FindWindow,
        },
        (ReactorState::Locating, ReactorEvent::WindowLookup { found }) => if found {
            Transition {
                next: ReactorState::ReadingPreference,
                action: ReactorAction::ReadPreference,
            }
        } else {
            Transition {
                next: ReactorState::Finished { outcome: Outcome::WindowMissing },
                action: ReactorAction::Nothing,
            }
        },
        (ReactorState::ReadingPreference, ReactorEvent::PreferenceRead { enabled }) => if preference_or_default(enabled) {
            Transition {
                next: ReactorState::Protecting { attempt: 1 },
                action: ReactorAction::Protect,
            }
        } else {
            Transition {
                next: ReactorState::Showing { protection: Protection::Skipped },
                action: ReactorAction::Show,
            }
        },
        (ReactorState::Protecting { attempt }, ReactorEvent::ProtectFinished { succeeded }) => if succeeded {
            Transition {
                next: ReactorState::Showing { protection: Protection::Applied },
                action: ReactorAction::Show,
            }
        } else if attempt < MAX_ATTEMPTS {
            Transition {
                next: ReactorState::Pausing { attempt },
                action: ReactorAction::Wait { millis: RETRY_DELAY_MS },
            }
        } else {
            Transition {
                next: ReactorState::Showing { protection: Protection::Failed },
                action: ReactorAction::Show,
            }
        },
        (ReactorState::Pausing { attempt }, ReactorEvent::DelayElapsed) => if attempt < MAX_ATTEMPTS {
            Transition {
                next: ReactorState::Protecting { attempt: (attempt + 1) as u8 },
                action: ReactorAction::Protect,
            }
        } else {
            Transition {
                next: ReactorState::Showing { protection: Protection::Failed },
                action: ReactorAction::Show,
            }
        },
        (ReactorState::Showing { protection }, ReactorEvent::ShowFinished { succeeded }) => Transition {
            next: ReactorState::Finished {
                outcome: if succeeded {
                    Outcome::Shown { protection }
                } else {
                    Outcome::ShowFailed { protection }
                },
            },
            action: ReactorAction::Nothing,
        },
        _ => Transition { next: state, action: ReactorAction::Nothing },
    }
}

/// The state that `events`, taken in turn, lead to from `state`.
pub open spec fn spec_final(state: ReactorState, events: Seq<ReactorEvent>) -> ReactorState
    decreases events.len(),
{
    if events.len() == 0 {
        state
    } else {
        spec_final(spec_step(state, events[0]).next, events.drop_first())
    }
}

/// The actions that `events`, taken in turn, ask for from `state`: one for
/// each event.
pub open spec fn spec_actions(state: ReactorState, events: Seq<ReactorEvent>) -> Seq<ReactorAction>
    decreases events.len(),
{
    if events.len() == 0 {
        Seq::empty()
    } else {
        let first = spec_step(state, events[0]);
        seq![first.action] + spec_actions(first.next, events.drop_first())
    }
}

/// How often `wanted` occurs among `actions`.
pub open spec fn occurrences(actions: Seq<ReactorAction>, wanted: ReactorAction) -> nat
    decreases actions.len(),
{
    if actions.len() == 0 {
        0
    } else {
        let rest = occurrences(actions.drop_first(), wanted);
        if actions[0] == wanted {
            rest + 1
        } else {
            rest
        }
    }
}

/// Starts the reaction to a creation notice whose label, if it had one, is
/// `label`. Only a secondary window is reacted to.
pub fn begin(label: &Option<String>) -> (first: Transition)
    ensures
        first == spec_begin(text_of(*label)),
{
    let secondary = match label {
        Some(text) => is_secondary_window(text.as_str()),
        None => false,
    };
    if secondary {
        Transition {
            next: ReactorState::Settling,
            action: ReactorAction::Wait { millis: SETTLE_DELAY_MS },
        }
    } else {
        Transition {
            next: ReactorState::Finished { outcome: Outcome::Ignored },
            action: ReactorAction::Nothing,
        }
    }
}

/// Reads the label from the creation notice `payload` and starts the
/// reaction to it. Returns the label with the first step.
pub fn on_window_created(payload: &str) -> (started: (Option<String>, Transition))
    ensures
        text_of(started.0) == json_string_member(payload@, label_key()),
        started.1 == spec_begin(json_string_member(payload@, label_key())),
{
    let label = created_window_label(payload);
    let first = begin(&label);
    (label, first)
}

/// Takes one event in `state`.
pub fn step(state: ReactorState, event: ReactorEvent) -> (taken: Transition)
    ensures
        taken == spec_step(state, event),
{
    let ignored = Transition { next: state, action: ReactorAction::Nothing };
    match state {
        ReactorState::Settling => match event {
            ReactorEvent::DelayElapsed => Transition {
                next: ReactorState::Locating,
                action: ReactorAction::FindWindow,
            },
            _ => ignored,
        },
        ReactorState::Locating => match event {
            ReactorEvent::WindowLookup { found: true } => Transition {
                next: ReactorState::ReadingPreference,
                action: ReactorAction::ReadPreference,
            },
            ReactorEvent::WindowLookup { found: false } => Transition {
                next: ReactorState::Finished { outcome: Outcome::WindowMissing },
                action: ReactorAction::Nothing,
            },
            _ => ignored,
        },
        ReactorState::ReadingPreference => match event {
            ReactorEvent::PreferenceRead { enabled: Some(false) } => show(Protection::Skipped),
            ReactorEvent::PreferenceRead { enabled: _ } => attempt_numbered(1),
            _ => ignored,
        },
        ReactorState::Protecting { attempt } => match event {
            ReactorEvent::ProtectFinished { succeeded: true } => show(Protection::Applied),
            ReactorEvent::ProtectFinished { succeeded: false } => if attempt < MAX_ATTEMPTS {
                Transition {
                    next: ReactorState::Pausing { attempt },
                    action: ReactorAction::Wait { millis: RETRY_DELAY_MS },
                }
            } else {
                show(Protection::Failed)
            },
            _ => ignored,
        },
        ReactorState::Pausing { attempt } => match event {
            ReactorEvent::DelayElapsed => if attempt < MAX_ATTEMPTS {
                attempt_numbered(attempt + 1)
            } else {
                show(Protection::Failed)
            },
            _ => ignored,
        },
        ReactorState::Showing { protection } => match event {
            ReactorEvent::ShowFinished { succeeded: true } => Transition {
                next: ReactorState::Finished { outcome: Outcome::Shown { protection } },
                action: ReactorAction::Nothing,
            },
            ReactorEvent::ShowFinished { succeeded: false } => Transition {
                next: ReactorState::Finished { outcome: Outcome::ShowFailed { protection } },
                action: ReactorAction::Nothing,
            },
            _ => ignored,
        },
        ReactorState::Finished { .. } => ignored,
    }
}

/// The step that makes the window visible.
fn show(protection: Protection) -> (taken: Transition)
    ensures
        taken == (Transition {
            next: ReactorState::Showing { protection },
            action: ReactorAction::Show,
        }),
{
    Transition { next: ReactorState::Showing { protection }, action: ReactorAction::Show }
}

/// The step that starts the attempt with the number `attempt`.
fn attempt_numbered(attempt: u8) -> (taken: Transition)
    ensures
        taken == (Transition {
            next: ReactorState::Protecting { attempt },
            action: ReactorAction::Protect,
        }),
{
    Transition { next: ReactorState::Protecting { attempt }, action: ReactorAction::Protect }
}

/// The event that reports a read of the preference; `state` is the store as
/// the host locked it, or `None` where the lock could not be taken.
pub fn preference_read(state: Option<&ProtectionState>) -> (event: ReactorEvent)
    ensures
        event == (ReactorEvent::PreferenceRead {
            enabled: match state {
                Some(store) => Some(store.enabled),
                None => None,
            },
        }),
{
    match state {
        Some(store) => ReactorEvent::PreferenceRead { enabled: Some(store.get()) },
        None => ReactorEvent::PreferenceRead { enabled: None },
    }
}

/// The event that reports an attempt to protect the window; `reply` is the
/// reply to the command that enabled the protection.
pub fn protect_finished(reply: &Result<String, String>) -> (event: ReactorEvent)
    ensures
        event == (ReactorEvent::ProtectFinished { succeeded: reply is Ok }),
{
    ReactorEvent::ProtectFinished { succeeded: reply.is_ok() }
}

/// Takes `events` in turn from `state`. Returns the action that each event
/// asked for, and the state reached.
pub fn replay(state: ReactorState, events: &Vec<ReactorEvent>) -> (run: (Vec<ReactorAction>, ReactorState))
    ensures
        run.0@ == spec_actions(state, events@),
        run.1 == spec_final(state, events@),
{
    let mut actions: Vec<ReactorAction> = Vec::new();
    let mut current = state;
    let mut i: usize = 0;
    assert(events@.skip(0) =~= events@);
    while i < events.len()
        invariant
            i <= events.len(),
            spec_actions(state, events@) == actions@ + spec_actions(current, events@.skip(i as int)),
            spec_final(state, events@) == spec_final(current, events@.skip(i as int)),
        decreases events.len() - i,
    {
        let taken = step(current, events[i]);
        proof {
            let rest = events@.skip(i as int);
            assert(rest[0] == events@[i as int]);
            assert(rest.drop_first() =~= events@.skip(i + 1));
            assert(actions@ + (seq![taken.action] + spec_actions(taken.next, rest.drop_first()))
                =~= actions@.push(taken.action) + spec_actions(taken.next, rest.drop_first()));
        }
        actions.push(taken.action);
        current = taken.next;
        i = i + 1;
    }
    assert(events@.skip(i as int).len() == 0);
    (actions, current)
}

} // verus!
