//! The status line.
//!
//! The line is recomputed every tick from the tick's outcome and from
//! whether the ambience loop is playing afterwards.  Toggle outcomes
//! speak for themselves; a one-shot outcome carries an
//! "(Ambience: ON)" suffix while the loop keeps playing underneath it;
//! a quiet tick shows the playing loop alone, and shows nothing new
//! when nothing is playing.  Every text is pinned here exactly, so a
//! caller knows the line letter for letter.

use vstd::prelude::*;

use crate::events::OneShotSound;
use crate::events::SoundError;
use crate::harness::TickOutcome;
use crate::toggle::ToggleOutcome;

verus! {

/// The status text of a finished toggle press.
pub open spec fn spec_toggle_status(o: ToggleOutcome) -> Seq<char> {
    match o {
        ToggleOutcome::Started => "Status: Playing ambience"@,
        ToggleOutcome::Stopped => "Status: Stopped ambience"@,
        ToggleOutcome::Failed(SoundError::EventNotFound) => "Status: Ambience event not found"@,
        ToggleOutcome::Failed(SoundError::InstanceCreationFailed) => (
        "Status: Failed to create ambience"@),
        ToggleOutcome::Failed(SoundError::PlaybackStartFailed) => (
        "Status: Failed to start ambience"@),
        ToggleOutcome::Failed(SoundError::PlaybackStopFailed) => (
        "Status: Failed to stop ambience"@),
    }
}

/// The status text of a finished one-shot attempt, with the suffix
/// that marks the ambience loop still playing underneath it.
pub open spec fn spec_one_shot_status(
    s: OneShotSound,
    error: Option<SoundError>,
    ambience_on: bool,
) -> Seq<char> {
    match (s, error) {
        (OneShotSound::Explosion, Option::None) => if ambience_on {
            "Status: Played explosion (Ambience: ON)"@
        } else {
            "Status: Played explosion"@
        },
        (OneShotSound::Explosion, Option::Some(SoundError::EventNotFound)) => if ambience_on {
            "Status: Explosion event not found (Ambience: ON)"@
        } else {
            "Status: Explosion event not found"@
        },
        (
            OneShotSound::Explosion,
            Option::Some(SoundError::InstanceCreationFailed),
        ) => if ambience_on {
            "Status: Failed to create explosion (Ambience: ON)"@
        } else {
            "Status: Failed to create explosion"@
        },
        (OneShotSound::Explosion, Option::Some(SoundError::PlaybackStartFailed)) => if ambience_on {
            "Status: Failed to start explosion (Ambience: ON)"@
        } else {
            "Status: Failed to start explosion"@
        },
        (OneShotSound::Explosion, Option::Some(SoundError::PlaybackStopFailed)) => if ambience_on {
            "Status: Failed to stop explosion (Ambience: ON)"@
        } else {
            "Status: Failed to stop explosion"@
        },
        (OneShotSound::UiCancel, Option::None) => if ambience_on {
            "Status: Played UI cancel (Ambience: ON)"@
        } else {
            "Status: Played UI cancel"@
        },
        (OneShotSound::UiCancel, Option::Some(SoundError::EventNotFound)) => if ambience_on {
            "Status: UI event not found (Ambience: ON)"@
        } else {
            "Status: UI event not found"@
        },
        (OneShotSound::UiCancel, Option::Some(SoundError::InstanceCreationFailed)) => if ambience_on {
            "Status: Failed to create UI sound (Ambience: ON)"@
        } else {
            "Status: Failed to create UI sound"@
        },
        (OneShotSound::UiCancel, Option::Some(SoundError::PlaybackStartFailed)) => if ambience_on {
            "Status: Failed to start UI sound (Ambience: ON)"@
        } else {
            "Status: Failed to start UI sound"@
        },
        (OneShotSound::UiCancel, Option::Some(SoundError::PlaybackStopFailed)) => if ambience_on {
            "Status: Failed to stop UI sound (Ambience: ON)"@
        } else {
            "Status: Failed to stop UI sound"@
        },
    }
}

/// The status line of a whole tick; `None` when a quiet tick with a
/// stopped loop leaves the line as it was.
pub open spec fn spec_status(o: TickOutcome, ambience_on: bool) -> Option<Seq<char>> {
    match o {
        TickOutcome::Toggle(t) => Some(spec_toggle_status(t)),
        TickOutcome::OneShot(s, error) => Some(spec_one_shot_status(s, error, ambience_on)),
        TickOutcome::Quiet => if ambience_on {
            Some("Status: Ambience playing"@)
        } else {
            None
        },
    }
}

/// The view of a possibly absent status text.
pub open spec fn spec_line_view(r: Option<&str>) -> Option<Seq<char>> {
    match r {
        Some(t) => Some(t@),
        None => None,
    }
}

/// Computes the status line shown after a tick: `None` means the line
/// is left untouched.
pub fn status_line(o: &TickOutcome, ambience_on: bool) -> (r: Option<&'static str>)
    ensures
        spec_line_view(r) == spec_status(*o, ambience_on),
{
    match o {
        TickOutcome::Toggle(t) => Some(
            match t {
                ToggleOutcome::Started => "Status: Playing ambience",
                ToggleOutcome::Stopped => "Status: Stopped ambience",
                ToggleOutcome::Failed(SoundError::EventNotFound) => (
                "Status: Ambience event not found"),
                ToggleOutcome::Failed(SoundError::InstanceCreationFailed) => (
                "Status: Failed to create ambience"),
                ToggleOutcome::Failed(SoundError::PlaybackStartFailed) => (
                "Status: Failed to start ambience"),
                ToggleOutcome::Failed(SoundError::PlaybackStopFailed) => (
                "Status: Failed to stop ambience"),
            },
        ),
        TickOutcome::OneShot(s, error) => Some(
            match (s, error) {
                (OneShotSound::Explosion, Option::None) => if ambience_on {
                    "Status: Played explosion (Ambience: ON)"
                } else {
                    "Status: Played explosion"
                },
                (OneShotSound::Explosion, Option::Some(SoundError::EventNotFound)) => if ambience_on {
                    "Status: Explosion event not found (Ambience: ON)"
                } else {
                    "Status: Explosion event not found"
                },
                (
                    OneShotSound::Explosion,
                    Option::Some(SoundError::InstanceCreationFailed),
                ) => if ambience_on {
                    "Status: Failed to create explosion (Ambience: ON)"
                } else {
                    "Status: Failed to create explosion"
                },
                (
                    OneShotSound::Explosion,
                    Option::Some(SoundError::PlaybackStartFailed),
                ) => if ambience_on {
                    "Status: Failed to start explosion (Ambience: ON)"
                } else {
                    "Status: Failed to start explosion"
                },
                (
                    OneShotSound::Explosion,
                    Option::Some(SoundError::PlaybackStopFailed),
                ) => if ambience_on {
                    "Status: Failed to stop explosion (Ambience: ON)"
                } else {
                    "Status: Failed to stop explosion"
                },
                (OneShotSound::UiCancel, Option::None) => if ambience_on {
                    "Status: Played UI cancel (Ambience: ON)"
                } else {
                    "Status: Played UI cancel"
                },
                (OneShotSound::UiCancel, Option::Some(SoundError::EventNotFound)) => if ambience_on {
                    "Status: UI event not found (Ambience: ON)"
                } else {
                    "Status: UI event not found"
                },
                (
                    OneShotSound::UiCancel,
                    Option::Some(SoundError::InstanceCreationFailed),
                ) => if ambience_on {
                    "Status: Failed to create UI sound (Ambience: ON)"
                } else {
                    "Status: Failed to create UI sound"
                },
                (
                    OneShotSound::UiCancel,
                    Option::Some(SoundError::PlaybackStartFailed),
                ) => if ambience_on {
                    "Status: Failed to start UI sound (Ambience: ON)"
                } else {
                    "Status: Failed to start UI sound"
                },
                (
                    OneShotSound::UiCancel,
                    Option::Some(SoundError::PlaybackStopFailed),
                ) => if ambience_on {
                    "Status: Failed to stop UI sound (Ambience: ON)"
                } else {
                    "Status: Failed to stop UI sound"
                },
            },
        ),
        TickOutcome::Quiet => if ambience_on {
            Some("Status: Ambience playing")
        } else {
            None
        },
    }
}

} // verus!
