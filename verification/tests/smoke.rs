//! Scenario tests for the headless playback smoke test and its
//! countdown.

use sound_trigger::countdown::Countdown;
use sound_trigger::events::OneShotSound;
use sound_trigger::events::SoundAction;
use sound_trigger::headless::SMOKE_TEST_DURATION_MS;
use sound_trigger::headless::SmokeTest;
use sound_trigger::headless::smoke_test_sounds;
use sound_trigger::oneshot::one_shot_action;
use sound_trigger::oneshot::one_shot_begin;
use sound_trigger::oneshot::one_shot_step;

#[test]
fn smoke_test_fires_both_sounds_in_sequence() {
    let sounds = smoke_test_sounds();
    assert_eq!(sounds, vec![OneShotSound::UiCancel, OneShotSound::Explosion]);

    // With both references resolvable, each startup sound is created,
    // started and released, in sequence.
    let mut all_actions: Vec<SoundAction> = Vec::new();
    for _sound in &sounds {
        let mut flow = one_shot_begin();
        while let Some(a) = one_shot_action(&flow) {
            all_actions.push(a);
            flow = one_shot_step(flow, true);
        }
    }
    assert_eq!(
        all_actions,
        vec![
            SoundAction::GetEvent,
            SoundAction::CreateInstance,
            SoundAction::Start,
            SoundAction::Release,
            SoundAction::GetEvent,
            SoundAction::CreateInstance,
            SoundAction::Start,
            SoundAction::Release,
        ]
    );
    let creates = all_actions
        .iter()
        .filter(|a| **a == SoundAction::CreateInstance)
        .count();
    let starts = all_actions
        .iter()
        .filter(|a| **a == SoundAction::Start)
        .count();
    let releases = all_actions
        .iter()
        .filter(|a| **a == SoundAction::Release)
        .count();
    assert_eq!((creates, starts, releases), (2, 2, 2));
}

#[test]
fn smoke_test_exits_once_after_three_seconds() {
    let mut t = SmokeTest::begin();
    assert_eq!(t.countdown.remaining_ms, 3000);

    // Simulated 100 ms ticks: no exit before three seconds have
    // passed, exactly one exit signal when they have, none afterwards.
    let mut signals = 0;
    for tick in 1..=50 {
        let exit = t.check_completion(100);
        if exit {
            signals += 1;
            assert_eq!(tick, 30);
        }
    }
    assert_eq!(signals, 1);
    assert_eq!(t.countdown.remaining_ms, 0);
}

#[test]
fn smoke_test_duration_is_three_seconds() {
    assert_eq!(SMOKE_TEST_DURATION_MS, 3000);
}

#[test]
fn countdown_signals_on_the_tick_that_reaches_zero() {
    let mut c = Countdown::new(250);
    assert!(!c.advance(100));
    assert!(!c.advance(100));
    assert_eq!(c.remaining_ms, 50);
    assert!(c.advance(100));
    assert_eq!(c.remaining_ms, 0);
}

#[test]
fn countdown_never_signals_twice() {
    let mut c = Countdown::new(3000);
    assert!(c.advance(5000));
    // Advancing past zero again and again issues no further signal.
    for _ in 0..10 {
        assert!(!c.advance(5000));
    }
    assert!(!c.advance(0));
}

#[test]
fn zero_length_countdown_never_signals() {
    let mut c = Countdown::new(0);
    assert!(!c.advance(0));
    assert!(!c.advance(1000));
}
