//! The fire-and-forget one-shot lifecycle.
//!
//! A one-shot attempt resolves the event path, creates an instance,
//! starts it, and then releases it immediately — the release happens
//! whether or not the start succeeded, so a created instance is never
//! leaked and never released twice.  The machine below issues one
//! sound-layer call per step; the surrounding program performs the
//! call and hands back whether it succeeded.

use vstd::prelude::*;

use crate::events::SoundAction;
use crate::events::SoundError;

verus! {

/// Progress of one one-shot attempt.  Each non-`Done` state names the
/// sound-layer call to make next.
#[derive(Clone, Copy, PartialEq, Eq, Debug)]
pub enum OneShotFlow {
    /// The event path still has to be resolved.
    Resolve,
    /// The descriptor is resolved; an instance has to be created.
    Create,
    /// The instance exists and has to be started.
    Start,
    /// The instance exists and must be handed back, whether or not it
    /// started.
    Release { started: bool },
    /// The attempt is over; `error` is its first failure, if any.
    Done { error: Option<SoundError> },
}

/// The sound-layer call a state asks for; `None` once the attempt is
/// over.
pub open spec fn spec_one_shot_action(f: OneShotFlow) -> Option<SoundAction> {
    match f {
        OneShotFlow::Resolve => Some(SoundAction::GetEvent),
        OneShotFlow::Create => Some(SoundAction::CreateInstance),
        OneShotFlow::Start => Some(SoundAction::Start),
        OneShotFlow::Release { .. } => Some(SoundAction::Release),
        OneShotFlow::Done { .. } => None,
    }
}

/// How one reply from the sound layer advances the attempt.  The first
/// failure wins: a failed resolve or create ends the attempt at once,
/// while a failed start still goes through the release state.  The
/// outcome of the release call itself is not inspected.
pub open spec fn spec_one_shot_step(f: OneShotFlow, ok: bool) -> OneShotFlow {
    match f {
        OneShotFlow::Resolve => if ok {
            OneShotFlow::Create
        } else {
            OneShotFlow::Done { error: Some(SoundError::EventNotFound) }
        },
        OneShotFlow::Create => if ok {
            OneShotFlow::Start
        } else {
            OneShotFlow::Done { error: Some(SoundError::InstanceCreationFailed) }
        },
        OneShotFlow::Start => OneShotFlow::Release { started: ok },
        OneShotFlow::Release { started } => OneShotFlow::Done {
            error: if started {
                None
            } else {
                Some(SoundError::PlaybackStartFailed)
            },
        },
        OneShotFlow::Done { .. } => f,
    }
}

/// A fresh one-shot attempt, about to resolve its event path.
pub fn one_shot_begin() -> (f: OneShotFlow)
    ensures
        f == OneShotFlow::Resolve,
{
    OneShotFlow::Resolve
}

/// The sound-layer call to make in the current state, or `None` once
/// the attempt is over.
pub fn one_shot_action(f: &OneShotFlow) -> (r: Option<SoundAction>)
    ensures
        r == spec_one_shot_action(*f),
{
    match f {
        OneShotFlow::Resolve => Some(SoundAction::GetEvent),
        OneShotFlow::Create => Some(SoundAction::CreateInstance),
        OneShotFlow::Start => Some(SoundAction::Start),
        OneShotFlow::Release { .. } => Some(SoundAction::Release),
        OneShotFlow::Done { .. } => None,
    }
}

/// Advances the attempt by the outcome of the call it asked for.
pub fn one_shot_step(f: OneShotFlow, ok: bool) -> (r: OneShotFlow)
    ensures
        r == spec_one_shot_step(f, ok),
{
    match f {
        OneShotFlow::Resolve => if ok {
            OneShotFlow::Create
        } else {
            OneShotFlow::Done { error: Some(SoundError::EventNotFound) }
        },
        OneShotFlow::Create => if ok {
            OneShotFlow::Start
        } else {
            OneShotFlow::Done { error: Some(SoundError::InstanceCreationFailed) }
        },
        OneShotFlow::Start => OneShotFlow::Release { started: ok },
        OneShotFlow::Release { started } => OneShotFlow::Done {
            error: if started {
                None
            } else {
                Some(SoundError::PlaybackStartFailed)
            },
        },
        OneShotFlow::Done { error } => OneShotFlow::Done { error },
    }
}

/// The first failure of a finished attempt, or `None` on success.
pub fn one_shot_error(f: &OneShotFlow) -> (r: Option<SoundError>)
    requires
        f matches OneShotFlow::Done { .. },
    ensures
        *f == (OneShotFlow::Done { error: r }),
{
    match f {
        OneShotFlow::Done { error } => *error,
        _ => None,
    }
}

/// The state the attempt reaches after a whole sequence of replies.
pub open spec fn one_shot_run(f: OneShotFlow, replies: Seq<bool>) -> OneShotFlow
    decreases replies.len(),
{
    if replies.len() == 0 {
        f
    } else {
        one_shot_run(spec_one_shot_step(f, replies[0]), replies.skip(1))
    }
}

/// How many release calls a run issues: one for each step taken from
/// the `Release` state.
pub open spec fn releases_in_run(f: OneShotFlow, replies: Seq<bool>) -> nat
    decreases replies.len(),
{
    if replies.len() == 0 {
        0
    } else {
        (match f {
            OneShotFlow::Release { .. } => 1nat,
            _ => 0nat,
        }) + releases_in_run(spec_one_shot_step(f, replies[0]), replies.skip(1))
    }
}

/// A finished attempt never asks for another sound-layer call, so it
/// never releases again.
pub proof fn lemma_done_releases_nothing(error: Option<SoundError>, replies: Seq<bool>)
    ensures
        releases_in_run(OneShotFlow::Done { error }, replies) == 0,
    decreases replies.len(),
{
    if replies.len() > 0 {
        lemma_done_releases_nothing(error, replies.skip(1));
    }
}

/// No run of a one-shot attempt ever issues two release calls,
/// whatever the sound layer replies: after the one release the attempt
/// is over for good.
pub proof fn lemma_release_at_most_once(f: OneShotFlow, replies: Seq<bool>)
    ensures
        releases_in_run(f, replies) <= 1,
    decreases replies.len(),
{
    if replies.len() > 0 {
        match f {
            OneShotFlow::Release { started } => {
                let error: Option<SoundError> = if started {
                    None
                } else {
                    Some(SoundError::PlaybackStartFailed)
                };
                lemma_done_releases_nothing(error, replies.skip(1));
            },
            _ => {
                lemma_release_at_most_once(spec_one_shot_step(f, replies[0]), replies.skip(1));
            },
        }
    }
}

/// Once an instance was created, a full run releases it exactly once —
/// also when the start call failed.
pub proof fn lemma_release_exactly_once_when_created(replies: Seq<bool>)
    requires
        replies.len() >= 4,
        replies[0],
        replies[1],
    ensures
        releases_in_run(OneShotFlow::Resolve, replies) == 1,
{
    let r1 = replies.skip(1);
    let r2 = replies.skip(2);
    let r3 = replies.skip(3);
    let r4 = replies.skip(4);
    assert(r1.skip(1) =~= r2);
    assert(r2.skip(1) =~= r3);
    assert(r3.skip(1) =~= r4);
    let started = replies[2];
    assert(releases_in_run(OneShotFlow::Resolve, replies) == releases_in_run(
        OneShotFlow::Create,
        r1,
    ));
    assert(releases_in_run(OneShotFlow::Create, r1) == releases_in_run(OneShotFlow::Start, r2));
    assert(releases_in_run(OneShotFlow::Start, r2) == releases_in_run(
        OneShotFlow::Release { started },
        r3,
    ));
    let error: Option<SoundError> = if started {
        None
    } else {
        Some(SoundError::PlaybackStartFailed)
    };
    assert(releases_in_run(OneShotFlow::Release { started }, r3) == 1 + releases_in_run(
        OneShotFlow::Done { error },
        r4,
    ));
    lemma_done_releases_nothing(error, r4);
}

/// When no instance was ever created — the resolve or the create call
/// failed, or the replies ran out before one succeeded — a run issues
/// no release call at all.
pub proof fn lemma_no_release_without_instance(replies: Seq<bool>)
    requires
        replies.len() < 2 || !replies[0] || !replies[1],
    ensures
        releases_in_run(OneShotFlow::Resolve, replies) == 0,
{
    if replies.len() == 0 {
    } else {
        let r1 = replies.skip(1);
        if !replies[0] {
            lemma_done_releases_nothing(Some(SoundError::EventNotFound), r1);
        } else if replies.len() == 1 {
            assert(releases_in_run(OneShotFlow::Resolve, replies) == releases_in_run(
                OneShotFlow::Create,
                r1,
            ));
        } else {
            let r2 = replies.skip(2);
            assert(r1.skip(1) =~= r2);
            assert(r1[0] == replies[1]);
            assert(releases_in_run(OneShotFlow::Resolve, replies) == releases_in_run(
                OneShotFlow::Create,
                r1,
            ));
            assert(releases_in_run(OneShotFlow::Create, r1) == releases_in_run(
                OneShotFlow::Done { error: Some(SoundError::InstanceCreationFailed) },
                r2,
            ));
            lemma_done_releases_nothing(Some(SoundError::InstanceCreationFailed), r2);
        }
    }
}

} // verus!
