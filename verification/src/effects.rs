//! Effects: what a tick or an input reaction asks the host to perform.
//!
//! The core mutates only its own model; audio playback and high-score
//! persistence are returned as an ordered list of intents for the host to
//! apply, in order, after the call.

use vstd::prelude::*;

verus! {

/// Audio cues the game can trigger, by name in the host's clip table.
#[derive(Clone, Copy, PartialEq, Eq, Structural, Debug)]
pub enum AudioCue {
    /// Obstacle hit that costs a life.
    Hit,
    /// Obstacle hit that exhausted the last life.
    GameOver,
    /// Plain collectible pickup.
    Collect,
    /// Milestone collectible pickup (score a multiple of ten).
    CollectTen,
    /// Jump feedback.
    Whoosh,
}

/// One intent for the host: fire-and-forget audio, a synchronous high-score
/// write, or toggling the background music alongside the pause flag.
#[derive(Clone, Copy, PartialEq, Eq, Structural, Debug)]
pub enum Effect {
    PlayAudio(AudioCue),
    PersistHighScore(i32),
    ToggleMusicPause,
}

} // verus!
