//! The interactive trigger harness.
//!
//! Per tick the surrounding program reads the key-press edges, asks
//! `plan_for_key` what to do for each, drives the returned plan by
//! performing the sound-layer calls it asks for, and folds the
//! finished outcome back into the harness with `apply`.  Only the
//! toggle outcome touches the tracked state: one-shot outcomes never
//! change it, whether they succeeded or failed.

use vstd::prelude::*;

use crate::events::KeyPress;
use crate::events::OneShotSound;
use crate::events::SoundError;
use crate::oneshot::OneShotFlow;
use crate::toggle::spec_apply_toggle;
use crate::toggle::spec_toggle_begin;
use crate::toggle::toggle_begin;
use crate::toggle::ToggleFlow;
use crate::toggle::ToggleOutcome;
use crate::toggle::ToggleState;

verus! {

/// The state the interactive harness carries across ticks.
pub struct Harness {
    /// Whether the tracked ambience loop is playing.
    pub toggle: ToggleState,
}

/// What a key press asks the surrounding program to do.
#[derive(Clone, Copy, PartialEq, Eq, Debug)]
pub enum TickPlan {
    /// Drive a toggle press on the ambience loop.
    RunToggle(ToggleFlow),
    /// Drive a one-shot attempt for the named sound.
    RunOneShot(OneShotSound, OneShotFlow),
    /// Request orderly process termination with success status.
    RequestExit,
}

/// What happened during one tick, handed back to the harness.
#[derive(Clone, Copy, PartialEq, Eq, Debug)]
pub enum TickOutcome {
    /// A toggle press finished with this outcome.
    Toggle(ToggleOutcome),
    /// A one-shot attempt for this sound finished; `None` on success,
    /// otherwise its first failure.
    OneShot(OneShotSound, Option<SoundError>),
    /// No key was pressed this tick.
    Quiet,
}

/// Whether an outcome came from a one-shot attempt.
pub open spec fn is_one_shot(o: TickOutcome) -> bool {
    match o {
        TickOutcome::OneShot(..) => true,
        _ => false,
    }
}

/// The toggle state after an outcome is folded in: only a finished
/// toggle press moves it.
pub open spec fn spec_apply_outcome(s: ToggleState, o: TickOutcome) -> ToggleState {
    match o {
        TickOutcome::Toggle(t) => spec_apply_toggle(s, t),
        TickOutcome::OneShot(..) => s,
        TickOutcome::Quiet => s,
    }
}

impl Harness {
    /// A fresh harness; the ambience loop starts out stopped.
    pub fn new() -> (h: Harness)
        ensures
            h.toggle == ToggleState::AmbienceStopped,
    {
        Harness { toggle: ToggleState::AmbienceStopped }
    }

    /// The plan for one key-press edge.  The toggle key begins a press
    /// against the current state; the one-shot keys begin a one-shot
    /// attempt for their sound whatever the toggle state is; the exit
    /// key asks for termination.
    pub fn plan_for_key(&self, k: KeyPress) -> (p: TickPlan)
        ensures
            k == KeyPress::Toggle ==> p == TickPlan::RunToggle(spec_toggle_begin(self.toggle)),
            k == KeyPress::OneShotA ==> p == TickPlan::RunOneShot(
                OneShotSound::Explosion,
                OneShotFlow::Resolve,
            ),
            k == KeyPress::OneShotB ==> p == TickPlan::RunOneShot(
                OneShotSound::UiCancel,
                OneShotFlow::Resolve,
            ),
            k == KeyPress::Exit ==> p == TickPlan::RequestExit,
    {
        match k {
            KeyPress::Toggle => TickPlan::RunToggle(toggle_begin(self.toggle)),
            KeyPress::OneShotA => TickPlan::RunOneShot(
                OneShotSound::Explosion,
                OneShotFlow::Resolve,
            ),
            KeyPress::OneShotB => TickPlan::RunOneShot(
                OneShotSound::UiCancel,
                OneShotFlow::Resolve,
            ),
            KeyPress::Exit => TickPlan::RequestExit,
        }
    }

    /// Folds a tick's outcome into the harness.  A successful toggle
    /// press flips the tracked state, a failed one leaves it as it
    /// was, and a one-shot or quiet tick never changes it.
    pub fn apply(&mut self, o: &TickOutcome)
        ensures
            final(self).toggle == spec_apply_outcome(old(self).toggle, *o),
            is_one_shot(*o) ==> final(self).toggle == old(self).toggle,
    {
        match o {
            TickOutcome::Toggle(ToggleOutcome::Started) => {
                self.toggle = ToggleState::AmbiencePlaying;
            },
            TickOutcome::Toggle(ToggleOutcome::Stopped) => {
                self.toggle = ToggleState::AmbienceStopped;
            },
            TickOutcome::Toggle(ToggleOutcome::Failed(_)) => {},
            TickOutcome::OneShot(..) => {},
            TickOutcome::Quiet => {},
        }
    }
}

/// The toggle state after a whole sequence of outcomes is folded in.
pub open spec fn spec_apply_outcomes(s: ToggleState, os: Seq<TickOutcome>) -> ToggleState
    decreases os.len(),
{
    if os.len() == 0 {
        s
    } else {
        spec_apply_outcomes(spec_apply_outcome(s, os[0]), os.skip(1))
    }
}

/// One-shot triggers never change the toggle state: a sequence of
/// ticks in which every outcome came from a one-shot attempt leaves
/// the tracked state exactly where it was, however each attempt ended.
pub proof fn lemma_one_shots_preserve_toggle(s: ToggleState, os: Seq<TickOutcome>)
    requires
        forall|i: int| 0 <= i < os.len() ==> is_one_shot(os[i]),
    ensures
        spec_apply_outcomes(s, os) == s,
    decreases os.len(),
{
    if os.len() > 0 {
        lemma_one_shots_preserve_toggle(spec_apply_outcome(s, os[0]), os.skip(1));
    }
}

} // verus!
