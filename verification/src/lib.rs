//! A small event-driven sound trigger facade.
//!
//! The library models the decision logic of two audio harnesses: an
//! interactive one that toggles a looping ambience and fires one-shot
//! sounds from key presses, and a headless smoke test that fires the
//! one-shots once and exits after a fixed countdown.  Every call into
//! the sound layer (resolve an event path, create an instance, start,
//! stop, release) is performed by the surrounding program; the library
//! decides which call to make next, folds the outcome into its state,
//! and produces the status line shown to the user.

pub mod countdown;
pub mod display;
pub mod events;
pub mod harness;
pub mod headless;
pub mod oneshot;
pub mod status;
pub mod toggle;
