//! A one-shot countdown.
//!
//! The countdown is armed with a duration and advanced every tick by
//! the wall-clock time that passed.  It signals exactly on the tick
//! that takes the remaining time to zero; advancing it further never
//! signals again, so whoever listens for the signal hears it at most
//! once.

use vstd::prelude::*;

verus! {

/// A countdown that signals once when it runs out.
#[derive(Clone, Copy, PartialEq, Eq, Structural, Debug)]
pub struct Countdown {
    /// Milliseconds left before the countdown signals.
    pub remaining_ms: u64,
}

/// The countdown after `delta_ms` milliseconds pass; the remaining
/// time never goes below zero.
pub open spec fn spec_advance(c: Countdown, delta_ms: u64) -> Countdown {
    if delta_ms >= c.remaining_ms {
        Countdown { remaining_ms: 0 }
    } else {
        Countdown { remaining_ms: (c.remaining_ms - delta_ms) as u64 }
    }
}

/// Whether this advance is the one that takes the remaining time to
/// zero.
pub open spec fn spec_signals(c: Countdown, delta_ms: u64) -> bool {
    c.remaining_ms > 0 && spec_advance(c, delta_ms).remaining_ms == 0
}

impl Countdown {
    /// Arms a countdown of the given duration.
    pub fn new(duration_ms: u64) -> (c: Countdown)
        ensures
            c.remaining_ms == duration_ms,
    {
        Countdown { remaining_ms: duration_ms }
    }

    /// Advances the countdown by the time that passed and reports
    /// whether it ran out on this very advance.
    pub fn advance(&mut self, delta_ms: u64) -> (signal: bool)
        ensures
            *final(self) == spec_advance(*old(self), delta_ms),
            signal == spec_signals(*old(self), delta_ms),
    {
        let was_running = self.remaining_ms > 0;
        if delta_ms >= self.remaining_ms {
            self.remaining_ms = 0;
        } else {
            self.remaining_ms = self.remaining_ms - delta_ms;
        }
        was_running && self.remaining_ms == 0
    }
}

/// How many of a sequence of advances signal.
pub open spec fn signals_in_run(c: Countdown, deltas: Seq<u64>) -> nat
    decreases deltas.len(),
{
    if deltas.len() == 0 {
        0
    } else {
        (if spec_signals(c, deltas[0]) {
            1nat
        } else {
            0nat
        }) + signals_in_run(spec_advance(c, deltas[0]), deltas.skip(1))
    }
}

/// A countdown that already ran out never signals again.
pub proof fn lemma_spent_countdown_is_silent(c: Countdown, deltas: Seq<u64>)
    requires
        c.remaining_ms == 0,
    ensures
        signals_in_run(c, deltas) == 0,
    decreases deltas.len(),
{
    if deltas.len() > 0 {
        lemma_spent_countdown_is_silent(spec_advance(c, deltas[0]), deltas.skip(1));
    }
}

/// However often the countdown is advanced past zero, it signals at
/// most once over the whole run.
pub proof fn lemma_signal_at_most_once(c: Countdown, deltas: Seq<u64>)
    ensures
        signals_in_run(c, deltas) <= 1,
    decreases deltas.len(),
{
    if deltas.len() > 0 {
        let c2 = spec_advance(c, deltas[0]);
        if spec_signals(c, deltas[0]) {
            lemma_spent_countdown_is_silent(c2, deltas.skip(1));
        } else {
            lemma_signal_at_most_once(c2, deltas.skip(1));
        }
    }
}

} // verus!
