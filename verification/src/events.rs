//! The vocabulary shared by both harnesses: which sounds exist, which
//! keys are read, which sound-layer calls can be requested, and how a
//! sound-layer call can fail.

use vstd::prelude::*;

verus! {

/// A named sound event, addressed in the loaded banks by a path.
#[derive(Clone, Copy, PartialEq, Eq, Structural, Debug)]
pub enum Sound {
    /// The looping country ambience, toggled on and off.
    Ambience,
    /// The explosion effect, fired as a one-shot.
    Explosion,
    /// The UI cancel effect, fired as a one-shot.
    UiCancel,
}

/// The sounds that are only ever fired as one-shots.
#[derive(Clone, Copy, PartialEq, Eq, Structural, Debug)]
pub enum OneShotSound {
    Explosion,
    UiCancel,
}

/// A discrete key-press edge event read by the interactive harness.
#[derive(Clone, Copy, PartialEq, Eq, Structural, Debug)]
pub enum KeyPress {
    /// Toggle the looping ambience.
    Toggle,
    /// Fire the explosion one-shot.
    OneShotA,
    /// Fire the UI cancel one-shot.
    OneShotB,
    /// Request orderly process termination.
    Exit,
}

/// How a sound-layer call can fail.  Every failure is non-fatal and is
/// surfaced only through the status line.
#[derive(Clone, Copy, PartialEq, Eq, Structural, Debug)]
pub enum SoundError {
    /// The event path is not present in the loaded banks.
    EventNotFound,
    /// The descriptor could not produce an instance.
    InstanceCreationFailed,
    /// The instance refused to start playing.
    PlaybackStartFailed,
    /// The instance refused to stop playing.
    PlaybackStopFailed,
}

/// The stop policy handed to the sound layer when stopping the ambience.
#[derive(Clone, Copy, PartialEq, Eq, Structural, Debug)]
pub enum StopMode {
    /// Cut the sound off instantly.
    Immediate,
    /// Let the sound decay naturally.
    AllowFadeout,
}

/// A single sound-layer call the surrounding program is asked to make.
/// Which event path a `GetEvent` refers to is fixed by the plan that
/// issued the action.
#[derive(Clone, Copy, PartialEq, Eq, Structural, Debug)]
pub enum SoundAction {
    /// Resolve the event path to a descriptor.
    GetEvent,
    /// Create a playable instance from the resolved descriptor.
    CreateInstance,
    /// Start the created instance.
    Start,
    /// Stop the tracked instance with the given policy.
    Stop(StopMode),
    /// Hand the instance back to the sound layer.
    Release,
}

/// The event path of each sound in the loaded banks.
pub open spec fn spec_event_path(s: Sound) -> Seq<char> {
    match s {
        Sound::Ambience => "event:/Ambience/Country"@,
        Sound::Explosion => "event:/Weapons/Explosion"@,
        Sound::UiCancel => "event:/UI/Cancel"@,
    }
}

/// Resolvable textual path of a sound event inside the loaded banks.
pub fn event_path(s: Sound) -> (r: &'static str)
    ensures
        r@ == spec_event_path(s),
{
    match s {
        Sound::Ambience => "event:/Ambience/Country",
        Sound::Explosion => "event:/Weapons/Explosion",
        Sound::UiCancel => "event:/UI/Cancel",
    }
}

/// The sound a one-shot refers to.
pub open spec fn spec_sound_of(s: OneShotSound) -> Sound {
    match s {
        OneShotSound::Explosion => Sound::Explosion,
        OneShotSound::UiCancel => Sound::UiCancel,
    }
}

/// Maps a one-shot sound to the sound it plays.
pub fn sound_of(s: OneShotSound) -> (r: Sound)
    ensures
        r == spec_sound_of(s),
{
    match s {
        OneShotSound::Explosion => Sound::Explosion,
        OneShotSound::UiCancel => Sound::UiCancel,
    }
}

} // verus!
