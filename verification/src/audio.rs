//! The sounds that the rules ask the host to play.

use vstd::prelude::*;

verus! {

/// A sound to be played once.
#[derive(Clone, Copy, Debug, PartialEq, Eq, Structural)]
pub enum AudioCue {
    /// The player was hit by an enemy.
    Explosion,
    /// The player picked up a star.
    Pickup,
    /// An enemy bounced off an edge: the first of two sounds.
    PluckOne,
    /// An enemy bounced off an edge: the second of two sounds.
    PluckTwo,
}

/// One of the two sounds of a bounce.
pub open spec fn is_bounce_cue(cue: AudioCue) -> bool {
    cue == AudioCue::PluckOne || cue == AudioCue::PluckTwo
}

/// The sound of a bounce that the toss of a coin selects.
pub open spec fn bounce_cue_of(coin: bool) -> AudioCue {
    if coin {
        AudioCue::PluckOne
    } else {
        AudioCue::PluckTwo
    }
}

/// The sound of a bounce that the toss of a coin selects.
pub fn bounce_cue(coin: bool) -> (cue: AudioCue)
    ensures
        cue == bounce_cue_of(coin),
        is_bounce_cue(cue),
{
    if coin {
        AudioCue::PluckOne
    } else {
        AudioCue::PluckTwo
    }
}

} // verus!
