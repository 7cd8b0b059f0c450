//! The score and game-over controller: what the listeners of a frame do
//! with the score and with the game-over event.

use vstd::prelude::*;
use crate::events::{EventSlot, GameOver};
use crate::resources::{player_label, HighScores, Score};

verus! {

/// The two states of a run.
#[derive(Clone, Copy, Debug, PartialEq, Eq, Structural)]
pub enum Phase {
    /// The player is in the game.
    Running,
    /// The run has ended with a game-over event.
    Ended,
}

/// The score that was last shown, if any was.
#[derive(Clone, Copy, Debug, PartialEq, Eq, Structural)]
pub struct ScoreWatch {
    pub seen: Option<u32>,
}

/// The length of the list of high scores that was last shown, if any was.
#[derive(Clone, Copy, Debug, PartialEq, Eq, Structural)]
pub struct HighScoresWatch {
    pub seen: Option<usize>,
}

/// The state of a run after a frame in which this event was pending.
pub open spec fn next_phase(phase: Phase, event: Option<GameOver>) -> Phase {
    if event is Some {
        Phase::Ended
    } else {
        phase
    }
}

/// A frame records a high score when the run ends in it: the run was going
/// and a game-over event is pending.
pub open spec fn records(phase: Phase, event: Option<GameOver>) -> bool {
    phase == Phase::Running && event is Some
}

/// The score to show, where it differs from the score that was last shown.
pub open spec fn score_news(seen: Option<u32>, value: u32) -> Option<u32> {
    if seen == Some(value) {
        None
    } else {
        Some(value)
    }
}

/// Reports the score where it differs from the one reported last, and
/// remembers it. The first call reports.
pub fn update_score(score: &Score, watch: &mut ScoreWatch) -> (changed: Option<u32>)
    ensures
        changed == score_news(old(watch).seen, score.value),
        final(watch).seen == Some(score.value),
{
    let changed = match watch.seen {
        Some(seen) => if seen == score.value {
            None
        } else {
            Some(score.value)
        },
        None => Some(score.value),
    };
    watch.seen = Some(score.value);
    changed
}

/// The final score to announce, where a game-over event is pending.
pub fn handle_game_over(events: &EventSlot) -> (final_score: Option<u32>)
    ensures
        final_score == (match events.pending {
            Some(event) => Some(event.score),
            None => None,
        }),
{
    match events.read() {
        Some(event) => Some(event.score),
        None => None,
    }
}

/// Ends the run on a pending game-over event. On the step from running to
/// ended the score of the event is appended to the high scores under the
/// label of the player; an event that finds the run ended appends nothing.
/// Returns whether a high score was appended.
pub fn update_high_scores(events: &EventSlot, phase: &mut Phase, high_scores: &mut HighScores) -> (recorded: bool)
    ensures
        recorded == records(*old(phase), events.pending),
        *final(phase) == next_phase(*old(phase), events.pending),
        recorded ==> final(high_scores).entries() == old(high_scores).entries().push(
            (player_label(), events.pending->0.score),
        ),
        !recorded ==> final(high_scores).entries() == old(high_scores).entries(),
{
    match events.read() {
        Some(event) => {
            let running = match *phase {
                Phase::Running => true,
                Phase::Ended => false,
            };
            *phase = Phase::Ended;
            if running {
                high_scores.record(event.score);
            }
            running
        },
        None => false,
    }
}

/// Reports whether the list of high scores has grown since it was last
/// reported, and remembers its length. The first call reports.
pub fn high_scores_updated(high_scores: &HighScores, watch: &mut HighScoresWatch) -> (changed: bool)
    ensures
        changed == (old(watch).seen != Some(high_scores.entries().len() as usize)),
        final(watch).seen == Some(high_scores.entries().len() as usize),
{
    let len = high_scores.len();
    let changed = match watch.seen {
        Some(seen) => seen != len,
        None => true,
    };
    watch.seen = Some(len);
    changed
}

} // verus!
