//! The tracked looping ambience.
//!
//! One boolean of state is tracked across ticks: whether the ambience
//! loop is playing.  A toggle press begun while the loop is stopped
//! resolves the ambience event, creates an instance and starts it; one
//! begun while it is playing stops the tracked instance with a
//! fade-out-tolerant policy.  The state flips exactly on a successful
//! start or stop; every failure leaves it unchanged.

use vstd::prelude::*;

use crate::events::SoundAction;
use crate::events::SoundError;
use crate::events::StopMode;

verus! {

/// Whether the tracked ambience loop is currently playing.
#[derive(Clone, Copy, PartialEq, Eq, Structural, Debug)]
pub enum ToggleState {
    AmbienceStopped,
    AmbiencePlaying,
}

/// What a finished toggle press did.
#[derive(Clone, Copy, PartialEq, Eq, Debug)]
pub enum ToggleOutcome {
    /// The ambience was started; the state becomes playing.
    Started,
    /// The ambience was stopped; the state becomes stopped.
    Stopped,
    /// A sound-layer call failed; the state is left unchanged.
    Failed(SoundError),
}

/// Progress of one toggle press.  Each non-`Done` state names the
/// sound-layer call to make next.
#[derive(Clone, Copy, PartialEq, Eq, Debug)]
pub enum ToggleFlow {
    /// Turning on: the ambience event path has to be resolved.
    Resolve,
    /// Turning on: an instance has to be created.
    Create,
    /// Turning on: the instance has to be started.
    Start,
    /// Turning off: the tracked instance has to be stopped.
    Stop,
    /// The press is over.
    Done { outcome: ToggleOutcome },
}

/// The state the loop reaches after a finished press.
pub open spec fn spec_apply_toggle(s: ToggleState, o: ToggleOutcome) -> ToggleState {
    match o {
        ToggleOutcome::Started => ToggleState::AmbiencePlaying,
        ToggleOutcome::Stopped => ToggleState::AmbienceStopped,
        ToggleOutcome::Failed(_) => s,
    }
}

/// The other toggle state.
pub open spec fn spec_flip(s: ToggleState) -> ToggleState {
    match s {
        ToggleState::AmbienceStopped => ToggleState::AmbiencePlaying,
        ToggleState::AmbiencePlaying => ToggleState::AmbienceStopped,
    }
}

/// Where a toggle press starts: resolving when the loop is stopped,
/// stopping when it is playing.
pub open spec fn spec_toggle_begin(s: ToggleState) -> ToggleFlow {
    match s {
        ToggleState::AmbienceStopped => ToggleFlow::Resolve,
        ToggleState::AmbiencePlaying => ToggleFlow::Stop,
    }
}

/// The sound-layer call a state asks for; `None` once the press is
/// over.
pub open spec fn spec_toggle_action(f: ToggleFlow) -> Option<SoundAction> {
    match f {
        ToggleFlow::Resolve => Some(SoundAction::GetEvent),
        ToggleFlow::Create => Some(SoundAction::CreateInstance),
        ToggleFlow::Start => Some(SoundAction::Start),
        ToggleFlow::Stop => Some(SoundAction::Stop(StopMode::AllowFadeout)),
        ToggleFlow::Done { .. } => None,
    }
}

/// How one reply from the sound layer advances the press.  The first
/// failure ends it with that failure.
pub open spec fn spec_toggle_step(f: ToggleFlow, ok: bool) -> ToggleFlow {
    match f {
        ToggleFlow::Resolve => if ok {
            ToggleFlow::Create
        } else {
            ToggleFlow::Done { outcome: ToggleOutcome::Failed(SoundError::EventNotFound) }
        },
        ToggleFlow::Create => if ok {
            ToggleFlow::Start
        } else {
            ToggleFlow::Done {
                outcome: ToggleOutcome::Failed(SoundError::InstanceCreationFailed),
            }
        },
        ToggleFlow::Start => if ok {
            ToggleFlow::Done { outcome: ToggleOutcome::Started }
        } else {
            ToggleFlow::Done { outcome: ToggleOutcome::Failed(SoundError::PlaybackStartFailed) }
        },
        ToggleFlow::Stop => if ok {
            ToggleFlow::Done { outcome: ToggleOutcome::Stopped }
        } else {
            ToggleFlow::Done { outcome: ToggleOutcome::Failed(SoundError::PlaybackStopFailed) }
        },
        ToggleFlow::Done { .. } => f,
    }
}

/// Begins a toggle press for the current state.
pub fn toggle_begin(s: ToggleState) -> (f: ToggleFlow)
    ensures
        f == spec_toggle_begin(s),
{
    match s {
        ToggleState::AmbienceStopped => ToggleFlow::Resolve,
        ToggleState::AmbiencePlaying => ToggleFlow::Stop,
    }
}

/// The sound-layer call to make in the current state, or `None` once
/// the press is over.
pub fn toggle_action(f: &ToggleFlow) -> (r: Option<SoundAction>)
    ensures
        r == spec_toggle_action(*f),
{
    match f {
        ToggleFlow::Resolve => Some(SoundAction::GetEvent),
        ToggleFlow::Create => Some(SoundAction::CreateInstance),
        ToggleFlow::Start => Some(SoundAction::Start),
        ToggleFlow::Stop => Some(SoundAction::Stop(StopMode::AllowFadeout)),
        ToggleFlow::Done { .. } => None,
    }
}

/// Advances the press by the outcome of the call it asked for.
pub fn toggle_step(f: ToggleFlow, ok: bool) -> (r: ToggleFlow)
    ensures
        r == spec_toggle_step(f, ok),
{
    match f {
        ToggleFlow::Resolve => if ok {
            ToggleFlow::Create
        } else {
            ToggleFlow::Done { outcome: ToggleOutcome::Failed(SoundError::EventNotFound) }
        },
        ToggleFlow::Create => if ok {
            ToggleFlow::Start
        } else {
            ToggleFlow::Done {
                outcome: ToggleOutcome::Failed(SoundError::InstanceCreationFailed),
            }
        },
        ToggleFlow::Start => if ok {
            ToggleFlow::Done { outcome: ToggleOutcome::Started }
        } else {
            ToggleFlow::Done { outcome: ToggleOutcome::Failed(SoundError::PlaybackStartFailed) }
        },
        ToggleFlow::Stop => if ok {
            ToggleFlow::Done { outcome: ToggleOutcome::Stopped }
        } else {
            ToggleFlow::Done { outcome: ToggleOutcome::Failed(SoundError::PlaybackStopFailed) }
        },
        ToggleFlow::Done { outcome } => ToggleFlow::Done { outcome },
    }
}

/// The outcome of a finished press.
pub fn toggle_outcome(f: &ToggleFlow) -> (r: ToggleOutcome)
    requires
        f matches ToggleFlow::Done { .. },
    ensures
        *f == (ToggleFlow::Done { outcome: r }),
{
    match f {
        ToggleFlow::Done { outcome } => *outcome,
        _ => ToggleOutcome::Failed(SoundError::EventNotFound),
    }
}

/// The state a press reaches after a whole sequence of replies.
pub open spec fn toggle_run(f: ToggleFlow, replies: Seq<bool>) -> ToggleFlow
    decreases replies.len(),
{
    if replies.len() == 0 {
        f
    } else {
        toggle_run(spec_toggle_step(f, replies[0]), replies.skip(1))
    }
}

/// The toggle state after one whole press: the finished outcome is
/// applied; a press whose replies ran out before it finished leaves
/// the state untouched.
pub open spec fn spec_press(s: ToggleState, replies: Seq<bool>) -> ToggleState {
    match toggle_run(spec_toggle_begin(s), replies) {
        ToggleFlow::Done { outcome } => spec_apply_toggle(s, outcome),
        _ => s,
    }
}

/// Whether one whole press succeeded: it finished with a started or a
/// stopped ambience.
pub open spec fn spec_press_succeeds(s: ToggleState, replies: Seq<bool>) -> bool {
    match toggle_run(spec_toggle_begin(s), replies) {
        ToggleFlow::Done { outcome: ToggleOutcome::Started } => true,
        ToggleFlow::Done { outcome: ToggleOutcome::Stopped } => true,
        _ => false,
    }
}

/// The states a press that is turning the ambience on can pass
/// through.
spec fn on_path(f: ToggleFlow) -> bool {
    match f {
        ToggleFlow::Resolve => true,
        ToggleFlow::Create => true,
        ToggleFlow::Start => true,
        ToggleFlow::Done { outcome: ToggleOutcome::Started } => true,
        ToggleFlow::Done { outcome: ToggleOutcome::Failed(_) } => true,
        _ => false,
    }
}

/// A press that began by resolving never reports a stopped ambience.
proof fn lemma_run_stays_on_path(f: ToggleFlow, replies: Seq<bool>)
    requires
        on_path(f),
    ensures
        on_path(toggle_run(f, replies)),
    decreases replies.len(),
{
    if replies.len() > 0 {
        lemma_run_stays_on_path(spec_toggle_step(f, replies[0]), replies.skip(1));
    }
}

/// The states a press that is turning the ambience off can pass
/// through.
spec fn off_path(f: ToggleFlow) -> bool {
    match f {
        ToggleFlow::Stop => true,
        ToggleFlow::Done { outcome: ToggleOutcome::Stopped } => true,
        ToggleFlow::Done { outcome: ToggleOutcome::Failed(_) } => true,
        _ => false,
    }
}

/// A press that began by stopping never reports a started ambience.
proof fn lemma_run_stays_off_path(f: ToggleFlow, replies: Seq<bool>)
    requires
        off_path(f),
    ensures
        off_path(toggle_run(f, replies)),
    decreases replies.len(),
{
    if replies.len() > 0 {
        lemma_run_stays_off_path(spec_toggle_step(f, replies[0]), replies.skip(1));
    }
}

/// One whole toggle press flips the state exactly when it succeeds;
/// any failed press, and any press cut short, leaves the state
/// unchanged.
pub proof fn lemma_press_alternates(s: ToggleState, replies: Seq<bool>)
    ensures
        spec_press_succeeds(s, replies) ==> spec_press(s, replies) == spec_flip(s),
        !spec_press_succeeds(s, replies) ==> spec_press(s, replies) == s,
{
    match s {
        ToggleState::AmbienceStopped => {
            lemma_run_stays_on_path(ToggleFlow::Resolve, replies);
        },
        ToggleState::AmbiencePlaying => {
            lemma_run_stays_off_path(ToggleFlow::Stop, replies);
        },
    }
}

/// The toggle state after a sequence of whole presses.
pub open spec fn run_presses(s: ToggleState, presses: Seq<Seq<bool>>) -> ToggleState
    decreases presses.len(),
{
    if presses.len() == 0 {
        s
    } else {
        run_presses(spec_press(s, presses[0]), presses.skip(1))
    }
}

/// How many presses of a sequence succeed.
pub open spec fn successful_presses(s: ToggleState, presses: Seq<Seq<bool>>) -> nat
    decreases presses.len(),
{
    if presses.len() == 0 {
        0
    } else {
        (if spec_press_succeeds(s, presses[0]) {
            1nat
        } else {
            0nat
        }) + successful_presses(spec_press(s, presses[0]), presses.skip(1))
    }
}

/// Over any sequence of toggle presses the tracked state alternates
/// strictly on the successful ones: after the whole sequence it is
/// flipped when an odd number of presses succeeded and unchanged when
/// an even number did.
pub proof fn lemma_toggle_alternation(s: ToggleState, presses: Seq<Seq<bool>>)
    ensures
        run_presses(s, presses) == if successful_presses(s, presses) % 2 == 0 {
            s
        } else {
            spec_flip(s)
        },
    decreases presses.len(),
{
    if presses.len() > 0 {
        lemma_press_alternates(s, presses[0]);
        lemma_toggle_alternation(spec_press(s, presses[0]), presses.skip(1));
    }
}

} // verus!
