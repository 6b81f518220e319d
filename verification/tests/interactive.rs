//! Scenario tests for the interactive trigger harness: toggling the
//! ambience loop, firing one-shots, and the status line.

use sound_trigger::events::KeyPress;
use sound_trigger::events::OneShotSound;
use sound_trigger::events::Sound;
use sound_trigger::events::SoundAction;
use sound_trigger::events::SoundError;
use sound_trigger::events::StopMode;
use sound_trigger::events::event_path;
use sound_trigger::events::sound_of;
use sound_trigger::harness::Harness;
use sound_trigger::harness::TickOutcome;
use sound_trigger::harness::TickPlan;
use sound_trigger::oneshot::OneShotFlow;
use sound_trigger::oneshot::one_shot_action;
use sound_trigger::oneshot::one_shot_begin;
use sound_trigger::oneshot::one_shot_error;
use sound_trigger::oneshot::one_shot_step;
use sound_trigger::status::status_line;
use sound_trigger::toggle::ToggleFlow;
use sound_trigger::toggle::ToggleOutcome;
use sound_trigger::toggle::ToggleState;
use sound_trigger::toggle::toggle_action;
use sound_trigger::toggle::toggle_begin;
use sound_trigger::toggle::toggle_outcome;
use sound_trigger::toggle::toggle_step;

/// Drives one toggle press to its end, handing back the listed reply
/// for each sound-layer call in turn, and records the calls made.
fn drive_toggle(state: ToggleState, replies: &[bool]) -> (Vec<SoundAction>, ToggleOutcome) {
    let mut flow = toggle_begin(state);
    let mut actions: Vec<SoundAction> = Vec::new();
    let mut i = 0;
    while let Some(a) = toggle_action(&flow) {
        actions.push(a);
        flow = toggle_step(flow, replies[i]);
        i += 1;
    }
    (actions, toggle_outcome(&flow))
}

/// Drives one one-shot attempt to its end in the same way.
fn drive_one_shot(replies: &[bool]) -> (Vec<SoundAction>, Option<SoundError>) {
    let mut flow = one_shot_begin();
    let mut actions: Vec<SoundAction> = Vec::new();
    let mut i = 0;
    while let Some(a) = one_shot_action(&flow) {
        actions.push(a);
        flow = one_shot_step(flow, replies[i]);
        i += 1;
    }
    (actions, one_shot_error(&flow))
}

#[test]
fn event_paths_are_fixed() {
    assert_eq!(event_path(Sound::Ambience), "event:/Ambience/Country");
    assert_eq!(event_path(Sound::Explosion), "event:/Weapons/Explosion");
    assert_eq!(event_path(Sound::UiCancel), "event:/UI/Cancel");
    assert_eq!(sound_of(OneShotSound::Explosion), Sound::Explosion);
    assert_eq!(sound_of(OneShotSound::UiCancel), Sound::UiCancel);
}

#[test]
fn keys_map_to_plans() {
    let h = Harness::new();
    assert_eq!(
        h.plan_for_key(KeyPress::Toggle),
        TickPlan::RunToggle(ToggleFlow::Resolve)
    );
    assert_eq!(
        h.plan_for_key(KeyPress::OneShotA),
        TickPlan::RunOneShot(OneShotSound::Explosion, OneShotFlow::Resolve)
    );
    assert_eq!(
        h.plan_for_key(KeyPress::OneShotB),
        TickPlan::RunOneShot(OneShotSound::UiCancel, OneShotFlow::Resolve)
    );
    assert_eq!(h.plan_for_key(KeyPress::Exit), TickPlan::RequestExit);
}

#[test]
fn toggle_twice_with_resolvable_event() {
    let mut h = Harness::new();
    assert_eq!(h.toggle, ToggleState::AmbienceStopped);

    // First press: resolve, create and start all succeed.
    let (actions, outcome) = drive_toggle(h.toggle, &[true, true, true]);
    assert_eq!(
        actions,
        vec![
            SoundAction::GetEvent,
            SoundAction::CreateInstance,
            SoundAction::Start
        ]
    );
    assert_eq!(outcome, ToggleOutcome::Started);
    h.apply(&TickOutcome::Toggle(outcome));
    assert_eq!(h.toggle, ToggleState::AmbiencePlaying);
    assert_eq!(
        status_line(&TickOutcome::Toggle(outcome), true),
        Some("Status: Playing ambience")
    );

    // Second press: the stop succeeds.
    let (actions, outcome) = drive_toggle(h.toggle, &[true]);
    assert_eq!(actions, vec![SoundAction::Stop(StopMode::AllowFadeout)]);
    assert_eq!(outcome, ToggleOutcome::Stopped);
    h.apply(&TickOutcome::Toggle(outcome));
    assert_eq!(h.toggle, ToggleState::AmbienceStopped);
    assert_eq!(
        status_line(&TickOutcome::Toggle(outcome), false),
        Some("Status: Stopped ambience")
    );
}

#[test]
fn failed_start_leaves_toggle_stopped() {
    let mut h = Harness::new();
    let (actions, outcome) = drive_toggle(h.toggle, &[true, true, false]);
    assert_eq!(actions.len(), 3);
    assert_eq!(outcome, ToggleOutcome::Failed(SoundError::PlaybackStartFailed));
    h.apply(&TickOutcome::Toggle(outcome));
    assert_eq!(h.toggle, ToggleState::AmbienceStopped);
    assert_eq!(
        status_line(&TickOutcome::Toggle(outcome), false),
        Some("Status: Failed to start ambience")
    );
}

#[test]
fn failed_stop_leaves_toggle_playing() {
    let mut h = Harness::new();
    let (_, outcome) = drive_toggle(h.toggle, &[true, true, true]);
    h.apply(&TickOutcome::Toggle(outcome));
    assert_eq!(h.toggle, ToggleState::AmbiencePlaying);

    let (actions, outcome) = drive_toggle(h.toggle, &[false]);
    assert_eq!(actions, vec![SoundAction::Stop(StopMode::AllowFadeout)]);
    assert_eq!(outcome, ToggleOutcome::Failed(SoundError::PlaybackStopFailed));
    h.apply(&TickOutcome::Toggle(outcome));
    assert_eq!(h.toggle, ToggleState::AmbiencePlaying);
    assert_eq!(
        status_line(&TickOutcome::Toggle(outcome), true),
        Some("Status: Failed to stop ambience")
    );
}

#[test]
fn failed_resolve_on_toggle_reports_not_found() {
    let mut h = Harness::new();
    let (actions, outcome) = drive_toggle(h.toggle, &[false]);
    assert_eq!(actions, vec![SoundAction::GetEvent]);
    assert_eq!(outcome, ToggleOutcome::Failed(SoundError::EventNotFound));
    h.apply(&TickOutcome::Toggle(outcome));
    assert_eq!(h.toggle, ToggleState::AmbienceStopped);
    assert_eq!(
        status_line(&TickOutcome::Toggle(outcome), false),
        Some("Status: Ambience event not found")
    );
}

#[test]
fn failed_create_on_toggle_reports_creation_failure() {
    let (actions, outcome) = drive_toggle(ToggleState::AmbienceStopped, &[true, false]);
    assert_eq!(actions, vec![SoundAction::GetEvent, SoundAction::CreateInstance]);
    assert_eq!(outcome, ToggleOutcome::Failed(SoundError::InstanceCreationFailed));
    assert_eq!(
        status_line(&TickOutcome::Toggle(outcome), false),
        Some("Status: Failed to create ambience")
    );
}

#[test]
fn toggle_presses_alternate_strictly_on_success() {
    let mut h = Harness::new();
    let presses: [&[bool]; 5] = [
        &[true, true, true],  // on
        &[false],             // failed stop: unchanged
        &[true],              // off
        &[false],             // failed resolve: unchanged
        &[true, true, true],  // on again
    ];
    let expected = [
        ToggleState::AmbiencePlaying,
        ToggleState::AmbiencePlaying,
        ToggleState::AmbienceStopped,
        ToggleState::AmbienceStopped,
        ToggleState::AmbiencePlaying,
    ];
    for (replies, want) in presses.iter().zip(expected.iter()) {
        let (_, outcome) = drive_toggle(h.toggle, replies);
        h.apply(&TickOutcome::Toggle(outcome));
        assert_eq!(h.toggle, *want);
    }
}

#[test]
fn one_shot_with_unresolvable_path() {
    let mut h = Harness::new();
    let before = h.toggle;
    let (actions, error) = drive_one_shot(&[false]);
    // The attempt ends at the resolve call: no instance is created.
    assert_eq!(actions, vec![SoundAction::GetEvent]);
    assert_eq!(error, Some(SoundError::EventNotFound));
    let outcome = TickOutcome::OneShot(OneShotSound::Explosion, error);
    h.apply(&outcome);
    assert_eq!(h.toggle, before);
    let line = status_line(&outcome, false).unwrap();
    assert!(line.contains("not found"));
    assert_eq!(line, "Status: Explosion event not found");
}

#[test]
fn one_shot_success_releases_exactly_once() {
    let (actions, error) = drive_one_shot(&[true, true, true, true]);
    assert_eq!(
        actions,
        vec![
            SoundAction::GetEvent,
            SoundAction::CreateInstance,
            SoundAction::Start,
            SoundAction::Release
        ]
    );
    assert_eq!(error, None);
    let releases = actions
        .iter()
        .filter(|a| **a == SoundAction::Release)
        .count();
    assert_eq!(releases, 1);
}

#[test]
fn one_shot_failed_start_still_releases_exactly_once() {
    let (actions, error) = drive_one_shot(&[true, true, false, true]);
    assert_eq!(
        actions,
        vec![
            SoundAction::GetEvent,
            SoundAction::CreateInstance,
            SoundAction::Start,
            SoundAction::Release
        ]
    );
    assert_eq!(error, Some(SoundError::PlaybackStartFailed));
    let releases = actions
        .iter()
        .filter(|a| **a == SoundAction::Release)
        .count();
    assert_eq!(releases, 1);
}

#[test]
fn one_shot_failed_create_never_releases() {
    let (actions, error) = drive_one_shot(&[true, false]);
    assert_eq!(actions, vec![SoundAction::GetEvent, SoundAction::CreateInstance]);
    assert_eq!(error, Some(SoundError::InstanceCreationFailed));
    assert!(!actions.contains(&SoundAction::Release));
}

#[test]
fn one_shots_never_change_toggle_state() {
    let mut h = Harness::new();
    let (_, outcome) = drive_toggle(h.toggle, &[true, true, true]);
    h.apply(&TickOutcome::Toggle(outcome));
    assert_eq!(h.toggle, ToggleState::AmbiencePlaying);

    // Success and every kind of failure leave the toggle state alone.
    for replies in [
        &[true, true, true, true][..],
        &[true, true, false, true][..],
        &[true, false][..],
        &[false][..],
    ] {
        let (_, error) = drive_one_shot(replies);
        h.apply(&TickOutcome::OneShot(OneShotSound::UiCancel, error));
        assert_eq!(h.toggle, ToggleState::AmbiencePlaying);
    }
}
