//! The headless playback smoke test.
//!
//! On startup it fires the UI cancel and the explosion one-shots, in
//! that order, each driven through the one-shot lifecycle; a failure
//! of the first never prevents the second.  It then arms a
//! three-second countdown and, on every later tick, advances it by
//! the elapsed wall-clock time.  The tick on which the countdown runs
//! out requests orderly process termination — once, and never again.

use vstd::prelude::*;

use crate::countdown::spec_advance;
use crate::countdown::spec_signals;
use crate::countdown::Countdown;
use crate::events::OneShotSound;

verus! {

/// How long the smoke test waits for the sounds to finish playing.
pub const SMOKE_TEST_DURATION_MS: u64 = 3000;

/// The sounds the smoke test fires on startup, in order.
pub fn smoke_test_sounds() -> (r: Vec<OneShotSound>)
    ensures
        r@.len() == 2,
        r@[0] == OneShotSound::UiCancel,
        r@[1] == OneShotSound::Explosion,
{
    let mut r: Vec<OneShotSound> = Vec::new();
    r.push(OneShotSound::UiCancel);
    r.push(OneShotSound::Explosion);
    r
}

/// The state the smoke test carries across ticks once the startup
/// sounds were fired.
pub struct SmokeTest {
    /// The countdown to the exit request.
    pub countdown: Countdown,
}

impl SmokeTest {
    /// Arms the smoke test's countdown.
    pub fn begin() -> (t: SmokeTest)
        ensures
            t.countdown.remaining_ms == SMOKE_TEST_DURATION_MS,
    {
        SmokeTest { countdown: Countdown::new(SMOKE_TEST_DURATION_MS) }
    }

    /// Advances the countdown by the elapsed time and reports whether
    /// this tick is the one that requests termination.
    pub fn check_completion(&mut self, delta_ms: u64) -> (exit: bool)
        ensures
            final(self).countdown == spec_advance(old(self).countdown, delta_ms),
            exit == spec_signals(old(self).countdown, delta_ms),
    {
        self.countdown.advance(delta_ms)
    }
}

} // verus!
