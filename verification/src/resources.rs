//! The state that lives as long as the process: the score, the list of
//! high scores and the two spawn timers.

use vstd::prelude::*;
use crate::timer::SpawnTimer;
use crate::{ENEMY_SPAWN_TIME, STAR_SPAWN_TIME};

verus! {

/// The score of the current run.
#[derive(Clone, Copy, Debug, PartialEq, Eq, Structural)]
pub struct Score {
    pub value: u32,
}

impl Default for Score {
    fn default() -> (score: Score)
        ensures
            score.value == 0,
    {
        Score { value: 0 }
    }
}

/// The final scores of the runs that ended, oldest first, each with the
/// label of who played.
#[derive(Debug)]
pub struct HighScores {
    pub scores: Vec<(String, u32)>,
}

/// The label under which the player's scores are recorded.
pub open spec fn player_label() -> Seq<char> {
    "Player"@
}

impl HighScores {
    /// The list as labels and scores.
    pub open spec fn entries(&self) -> Seq<(Seq<char>, u32)> {
        Seq::new(self.scores@.len(), |i: int| (self.scores@[i].0@, self.scores@[i].1))
    }

    /// Appends the player's final score.
    pub fn record(&mut self, score: u32)
        ensures
            final(self).entries() == old(self).entries().push((player_label(), score)),
    {
        self.scores.push(("Player".to_owned(), score));
        assert(self.entries() =~= old(self).entries().push((player_label(), score)));
    }

    /// The number of recorded scores.
    pub fn len(&self) -> (n: usize)
        ensures
            n == self.entries().len(),
    {
        self.scores.len()
    }
}

impl Default for HighScores {
    fn default() -> (list: HighScores)
        ensures
            list.entries() == Seq::<(Seq<char>, u32)>::empty(),
    {
        let list = HighScores { scores: Vec::new() };
        assert(list.entries() =~= Seq::<(Seq<char>, u32)>::empty());
        list
    }
}

/// The timer that paces the stars spawned over time.
#[derive(Clone, Copy, Debug, PartialEq, Eq, Structural)]
pub struct StarSpawnTimer {
    pub timer: SpawnTimer,
}

impl Default for StarSpawnTimer {
    fn default() -> (out: StarSpawnTimer)
        ensures
            out.timer.period_of() == STAR_SPAWN_TIME,
            out.timer.elapsed_of() == 0,
            !out.timer.is_finished(),
            out.timer.wf(),
    {
        StarSpawnTimer { timer: SpawnTimer::new(STAR_SPAWN_TIME) }
    }
}

/// The timer that paces the enemies spawned over time.
#[derive(Clone, Copy, Debug, PartialEq, Eq, Structural)]
pub struct EnemySpawnTimer {
    pub timer: SpawnTimer,
}

impl Default for EnemySpawnTimer {
    fn default() -> (out: EnemySpawnTimer)
        ensures
            out.timer.period_of() == ENEMY_SPAWN_TIME,
            out.timer.elapsed_of() == 0,
            !out.timer.is_finished(),
            out.timer.wf(),
    {
        EnemySpawnTimer { timer: SpawnTimer::new(ENEMY_SPAWN_TIME) }
    }
}

} // verus!
