use capture_guard::reactor::{
    begin, on_window_created, preference_read, protect_finished, replay, step, Outcome,
    Protection, ReactorAction, ReactorEvent, ReactorState, Transition, MAIN_WINDOW_DELAY_MS,
    MAX_ATTEMPTS, RETRY_DELAY_MS, SETTLE_DELAY_MS,
};
use capture_guard::ProtectionState;

const ELAPSED: ReactorEvent = ReactorEvent::DelayElapsed;
const FOUND: ReactorEvent = ReactorEvent::WindowLookup { found: true };
const MISSING: ReactorEvent = ReactorEvent::WindowLookup { found: false };
const ENABLED: ReactorEvent = ReactorEvent::PreferenceRead { enabled: Some(true) };
const DISABLED: ReactorEvent = ReactorEvent::PreferenceRead { enabled: Some(false) };
const UNREADABLE: ReactorEvent = ReactorEvent::PreferenceRead { enabled: None };
const PROTECTED: ReactorEvent = ReactorEvent::ProtectFinished { succeeded: true };
const UNPROTECTED: ReactorEvent = ReactorEvent::ProtectFinished { succeeded: false };
const SHOWN: ReactorEvent = ReactorEvent::ShowFinished { succeeded: true };
const NOT_SHOWN: ReactorEvent = ReactorEvent::ShowFinished { succeeded: false };

fn count(actions: &[ReactorAction], wanted: ReactorAction) -> usize {
    actions.iter().filter(|action| **action == wanted).count()
}

fn all_events() -> Vec<ReactorEvent> {
    vec![
        ELAPSED, FOUND, MISSING, ENABLED, DISABLED, UNREADABLE, PROTECTED, UNPROTECTED, SHOWN,
        NOT_SHOWN,
    ]
}

fn ignored() -> Transition {
    Transition {
        next: ReactorState::Finished { outcome: Outcome::Ignored },
        action: ReactorAction::Nothing,
    }
}

fn settling() -> Transition {
    Transition { next: ReactorState::Settling, action: ReactorAction::Wait { millis: 800 } }
}

#[test]
fn delays_and_attempts() {
    assert_eq!(SETTLE_DELAY_MS, 800);
    assert_eq!(RETRY_DELAY_MS, 100);
    assert_eq!(MAX_ATTEMPTS, 5);
    assert_eq!(MAIN_WINDOW_DELAY_MS, 1000);
}

#[test]
fn secondary_window_starts_a_reaction() {
    assert_eq!(begin(&Some("aegis-1".to_string())), settling());
    let (label, first) = on_window_created("{\"label\":\"aegis-42\"}");
    assert_eq!(label, Some("aegis-42".to_string()));
    assert_eq!(first, settling());
}

#[test]
fn non_matching_label_produces_no_attempt() {
    assert_eq!(begin(&Some("main".to_string())), ignored());
    assert_eq!(begin(&Some("aegis".to_string())), ignored());
    assert_eq!(begin(&None), ignored());
    let (label, first) = on_window_created("{\"label\":\"main\"}");
    assert_eq!(label, Some("main".to_string()));
    assert_eq!(first, ignored());
    let (actions, last) = replay(first.next, &all_events());
    assert_eq!(actions, vec![ReactorAction::Nothing; 10]);
    assert_eq!(last, ReactorState::Finished { outcome: Outcome::Ignored });
}

#[test]
fn notice_without_label_is_ignored() {
    for payload in ["", "{}", "not json", "{\"label\":5}", "{\"name\":\"aegis-1\"}"] {
        let (label, first) = on_window_created(payload);
        assert_eq!(label, None);
        assert_eq!(first, ignored());
    }
}

#[test]
fn protection_on_first_attempt() {
    let events = vec![ELAPSED, FOUND, ENABLED, PROTECTED, SHOWN];
    let (actions, last) = replay(ReactorState::Settling, &events);
    assert_eq!(
        actions,
        vec![
            ReactorAction::FindWindow,
            ReactorAction::ReadPreference,
            ReactorAction::Protect,
            ReactorAction::Show,
            ReactorAction::Nothing,
        ]
    );
    assert_eq!(
        last,
        ReactorState::Finished { outcome: Outcome::Shown { protection: Protection::Applied } }
    );
}

#[test]
fn protection_on_third_attempt() {
    let events = vec![
        ELAPSED, FOUND, ENABLED, UNPROTECTED, ELAPSED, UNPROTECTED, ELAPSED, PROTECTED, SHOWN,
    ];
    let (actions, last) = replay(ReactorState::Settling, &events);
    assert_eq!(
        actions,
        vec![
            ReactorAction::FindWindow,
            ReactorAction::ReadPreference,
            ReactorAction::Protect,
            ReactorAction::Wait { millis: 100 },
            ReactorAction::Protect,
            ReactorAction::Wait { millis: 100 },
            ReactorAction::Protect,
            ReactorAction::Show,
            ReactorAction::Nothing,
        ]
    );
    assert_eq!(
        last,
        ReactorState::Finished { outcome: Outcome::Shown { protection: Protection::Applied } }
    );
}

#[test]
fn five_failures_still_show_the_window() {
    let mut events = vec![ELAPSED, FOUND, ENABLED];
    for _ in 0..4 {
        events.push(UNPROTECTED);
        events.push(ELAPSED);
    }
    events.push(UNPROTECTED);
    events.push(SHOWN);
    let (actions, last) = replay(ReactorState::Settling, &events);
    assert_eq!(count(&actions, ReactorAction::Protect), 5);
    assert_eq!(count(&actions, ReactorAction::Wait { millis: 100 }), 4);
    assert_eq!(count(&actions, ReactorAction::Show), 1);
    assert_eq!(actions[actions.len() - 2], ReactorAction::Show);
    assert_eq!(
        last,
        ReactorState::Finished { outcome: Outcome::Shown { protection: Protection::Failed } }
    );
}

#[test]
fn never_more_than_five_attempts() {
    let mut events = vec![ELAPSED, FOUND, ENABLED];
    for _ in 0..40 {
        events.push(UNPROTECTED);
        events.push(ELAPSED);
        events.push(ENABLED);
    }
    let (actions, last) = replay(ReactorState::Settling, &events);
    assert_eq!(count(&actions, ReactorAction::Protect), 5);
    assert_eq!(count(&actions, ReactorAction::Show), 1);
    assert_eq!(last, ReactorState::Showing { protection: Protection::Failed });
}

#[test]
fn disabled_preference_shows_without_attempt() {
    let events = vec![ELAPSED, FOUND, DISABLED, SHOWN];
    let (actions, last) = replay(ReactorState::Settling, &events);
    assert_eq!(
        actions,
        vec![
            ReactorAction::FindWindow,
            ReactorAction::ReadPreference,
            ReactorAction::Show,
            ReactorAction::Nothing,
        ]
    );
    assert_eq!(count(&actions, ReactorAction::Protect), 0);
    assert_eq!(
        last,
        ReactorState::Finished { outcome: Outcome::Shown { protection: Protection::Skipped } }
    );
}

#[test]
fn unreadable_preference_counts_as_enabled() {
    assert_eq!(
        step(ReactorState::ReadingPreference, UNREADABLE),
        Transition { next: ReactorState::Protecting { attempt: 1 }, action: ReactorAction::Protect }
    );
    assert_eq!(preference_read(None), UNREADABLE);
    assert_eq!(preference_read(Some(&ProtectionState { enabled: false })), DISABLED);
    assert_eq!(preference_read(Some(&ProtectionState::default())), ENABLED);
}

#[test]
fn toggle_reply_becomes_an_event() {
    assert_eq!(protect_finished(&Ok("done".to_string())), PROTECTED);
    assert_eq!(protect_finished(&Err("no".to_string())), UNPROTECTED);
}

#[test]
fn missing_window_ends_the_reaction() {
    let (actions, last) = replay(ReactorState::Settling, &vec![ELAPSED, MISSING, ENABLED, SHOWN]);
    assert_eq!(
        actions,
        vec![
            ReactorAction::FindWindow,
            ReactorAction::Nothing,
            ReactorAction::Nothing,
            ReactorAction::Nothing,
        ]
    );
    assert_eq!(last, ReactorState::Finished { outcome: Outcome::WindowMissing });
}

#[test]
fn failed_show_is_recorded() {
    assert_eq!(
        step(ReactorState::Showing { protection: Protection::Applied }, NOT_SHOWN),
        Transition {
            next: ReactorState::Finished {
                outcome: Outcome::ShowFailed { protection: Protection::Applied },
            },
            action: ReactorAction::Nothing,
        }
    );
}

#[test]
fn retry_follows_a_pause() {
    assert_eq!(
        step(ReactorState::Protecting { attempt: 4 }, UNPROTECTED),
        Transition {
            next: ReactorState::Pausing { attempt: 4 },
            action: ReactorAction::Wait { millis: 100 },
        }
    );
    assert_eq!(
        step(ReactorState::Pausing { attempt: 4 }, ELAPSED),
        Transition { next: ReactorState::Protecting { attempt: 5 }, action: ReactorAction::Protect }
    );
    assert_eq!(
        step(ReactorState::Protecting { attempt: 5 }, UNPROTECTED),
        Transition {
            next: ReactorState::Showing { protection: Protection::Failed },
            action: ReactorAction::Show,
        }
    );
}

#[test]
fn attempt_numbers_out_of_range_start_nothing() {
    for attempt in [5u8, 6, 200, 255] {
        assert_eq!(
            step(ReactorState::Pausing { attempt }, ELAPSED),
            Transition {
                next: ReactorState::Showing { protection: Protection::Failed },
                action: ReactorAction::Show,
            }
        );
        assert_eq!(
            step(ReactorState::Protecting { attempt }, UNPROTECTED),
            Transition {
                next: ReactorState::Showing { protection: Protection::Failed },
                action: ReactorAction::Show,
            }
        );
    }
}

#[test]
fn unawaited_events_change_nothing() {
    let states = [
        (ReactorState::Settling, ELAPSED),
        (ReactorState::Locating, FOUND),
        (ReactorState::ReadingPreference, ENABLED),
        (ReactorState::Protecting { attempt: 2 }, PROTECTED),
        (ReactorState::Pausing { attempt: 2 }, ELAPSED),
        (ReactorState::Showing { protection: Protection::Skipped }, SHOWN),
    ];
    for (state, awaited) in states {
        for event in all_events() {
            let same_kind = std::mem::discriminant(&event) == std::mem::discriminant(&awaited);
            let taken = step(state, event);
            if same_kind {
                assert_ne!(taken.next, state);
            } else {
                assert_eq!(taken, Transition { next: state, action: ReactorAction::Nothing });
            }
        }
    }
}

#[test]
fn replay_of_nothing_is_nothing() {
    let (actions, last) = replay(ReactorState::Locating, &Vec::new());
    assert!(actions.is_empty());
    assert_eq!(last, ReactorState::Locating);
}
