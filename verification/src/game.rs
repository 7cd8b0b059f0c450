//! The frame loop's state and the ordered pipeline of one frame.
//!
//! A frame runs the rules in a fixed order: the timers tick, the spawners
//! act on them, the player and the enemies move and are contained, the
//! collisions are resolved, and the listeners see the events. A rule sees
//! what the rules before it did in the same frame.

use vstd::prelude::*;
use crate::audio::{is_bounce_cue, AudioCue};
use crate::components::{still_body, Kind};
use crate::error::Error;
use crate::events::{EventSlot, GameOver};
use crate::field::FieldBounds;
use crate::resources::{player_label, EnemySpawnTimer, HighScores, Score, StarSpawnTimer};
use crate::store::{has_player, player_handle, removed, EntityStore, Slots};
use crate::systems::collisions::{
    after_pickups, enemy_hit_player, lemma_pickups_at_most_len, pickup_count, player_hit_star,
    player_struck,
};
use crate::systems::movement::{
    begin_frame, bounce_count, confine_player_movement, enemies_moved, enemies_reflected,
    enemy_movement, frame_begun, player_confined, player_moved, player_movement,
    update_enemy_direction, DirectionalInput,
};
use crate::systems::score::{
    handle_game_over, high_scores_updated, next_phase, records, score_news, update_high_scores,
    update_score, HighScoresWatch, Phase, ScoreWatch,
};
use crate::systems::spawns::{
    grown_by, spawn_camera, spawn_enemies, spawn_enemies_over_time, spawn_player, spawn_stars,
    spawn_stars_over_time, tick_enemy_spawn_timer, tick_star_spawn_timer,
};
use crate::timer::{ticked_elapsed, ticked_finished, SpawnTimer};
use crate::{ENEMY_SPAWN_TIME, NUMBER_OF_ENEMIES, NUMBER_OF_STARS, STAR_SPAWN_TIME};

verus! {

/// What the host hands to a frame.
#[derive(Clone, Copy, Debug, PartialEq, Eq, Structural)]
pub struct FrameInput {
    /// The time since the last frame, in nanoseconds.
    pub delta: u64,
    /// The state of the direction keys.
    pub keys: DirectionalInput,
    /// The bounds of the field, where there is a field.
    pub bounds: Option<FieldBounds>,
    /// Whether the player asked to leave.
    pub exit_requested: bool,
}

/// What a frame hands back to the host.
#[derive(Debug)]
pub struct FrameOutput {
    /// The sounds to play, in the order in which the rules asked for them.
    pub cues: Vec<AudioCue>,
    /// The final score to announce, where the player died in this frame.
    pub final_score: Option<u32>,
    /// The score to show, where it differs from the score shown last.
    pub score_changed: Option<u32>,
    /// Whether the list of high scores is to be shown again.
    pub high_scores_changed: bool,
    /// Whether the frame loop is to end after this frame.
    pub exit: bool,
}

/// Everything that the frame loop owns.
pub struct Game {
    pub store: EntityStore,
    pub score: Score,
    pub high_scores: HighScores,
    pub star_spawn_timer: StarSpawnTimer,
    pub enemy_spawn_timer: EnemySpawnTimer,
    pub events: EventSlot,
    pub phase: Phase,
    pub score_watch: ScoreWatch,
    pub high_scores_watch: HighScoresWatch,
}

/// Whether a timer fires on a tick of `delta` nanoseconds.
pub open spec fn fires(timer: SpawnTimer, delta: int) -> bool {
    ticked_finished(timer.period_of(), timer.elapsed_of(), delta)
}

/// How many entities a spawner adds in a frame: one where its timer fires
/// and there is a field, none otherwise.
pub open spec fn spawn_count(timer: SpawnTimer, input: FrameInput) -> int {
    if fires(timer, input.delta as int) && input.bounds is Some {
        1
    } else {
        0
    }
}

/// The spawn stage of a frame leads from `before` to `after`: first the
/// enemies, then the stars that are due are added, each at some point of
/// the field.
pub open spec fn spawn_stage(before: Slots, after: Slots, enemies: int, stars: int, bounds: Option<FieldBounds>) -> bool {
    match bounds {
        Some(b) => {
            &&& grown_by(before, after.take(before.len() + enemies), enemies, Kind::Enemy, b)
            &&& grown_by(after.take(before.len() + enemies), after, stars, Kind::Star, b)
        },
        None => after == before,
    }
}

/// The store after the player has moved and is contained and the enemies
/// have moved, before they are reflected.
pub open spec fn motion_stage(s: Slots, input: FrameInput) -> Slots {
    let moved = player_moved(s, input.keys, input.delta as int);
    let kept = match input.bounds {
        Some(b) => player_confined(moved, b),
        None => moved,
    };
    enemies_moved(kept, input.delta as int)
}

/// The store after the reflection pass of a frame.
pub open spec fn reflection_stage(s: Slots, input: FrameInput) -> Slots {
    match input.bounds {
        Some(b) => enemies_reflected(s, b),
        None => s,
    }
}

/// The number of bounces in the reflection pass of a frame.
pub open spec fn frame_bounces(s: Slots, input: FrameInput) -> nat {
    match input.bounds {
        Some(b) => bounce_count(s, b),
        None => 0,
    }
}

/// The store after the player has died where an enemy is on it.
pub open spec fn strike_stage(s: Slots) -> Slots {
    if player_struck(s) {
        removed(s, player_handle(s))
    } else {
        s
    }
}

/// One frame leads from `before` to `after` with `output`, where
/// `spawned` is the store after the spawn stage.
pub open spec fn stepped(before: Game, input: FrameInput, spawned: Slots, after: Game, output: FrameOutput) -> bool {
    let moved = motion_stage(spawned, input);
    let turned = reflection_stage(moved, input);
    let struck = player_struck(turned);
    let survived = strike_stage(turned);
    let hits = pickup_count(survived);
    let bounces = frame_bounces(moved, input);
    let event = if struck {
        Some(GameOver { score: before.score.value })
    } else {
        None
    };
    let strike_cues: nat = if struck {
        1
    } else {
        0
    };
    &&& spawn_stage(
        frame_begun(before.store@),
        spawned,
        spawn_count(before.enemy_spawn_timer.timer, input),
        spawn_count(before.star_spawn_timer.timer, input),
        input.bounds,
    )
    &&& after.store@ == after_pickups(survived)
    &&& after.score.value == before.score.value + hits
    &&& after.star_spawn_timer.timer.period_of() == before.star_spawn_timer.timer.period_of()
    &&& after.star_spawn_timer.timer.elapsed_of() == ticked_elapsed(
        before.star_spawn_timer.timer.period_of(),
        before.star_spawn_timer.timer.elapsed_of(),
        input.delta as int,
    )
    &&& after.star_spawn_timer.timer.is_finished() == fires(
        before.star_spawn_timer.timer,
        input.delta as int,
    )
    &&& after.enemy_spawn_timer.timer.period_of() == before.enemy_spawn_timer.timer.period_of()
    &&& after.enemy_spawn_timer.timer.elapsed_of() == ticked_elapsed(
        before.enemy_spawn_timer.timer.period_of(),
        before.enemy_spawn_timer.timer.elapsed_of(),
        input.delta as int,
    )
    &&& after.enemy_spawn_timer.timer.is_finished() == fires(
        before.enemy_spawn_timer.timer,
        input.delta as int,
    )
    &&& after.star_spawn_timer.timer.wf()
    &&& after.enemy_spawn_timer.timer.wf()
    &&& after.events.pending is None
    &&& after.phase == next_phase(before.phase, event)
    &&& after.high_scores.entries() == (if records(before.phase, event) {
        before.high_scores.entries().push((player_label(), before.score.value))
    } else {
        before.high_scores.entries()
    })
    &&& after.score_watch.seen == Some(after.score.value)
    &&& after.high_scores_watch.seen == Some(after.high_scores.entries().len() as usize)
    &&& output.final_score == (if struck {
        Some(before.score.value)
    } else {
        None
    })
    &&& output.score_changed == score_news(before.score_watch.seen, after.score.value)
    &&& output.high_scores_changed == (before.high_scores_watch.seen != Some(
        after.high_scores.entries().len() as usize,
    ))
    &&& output.exit == input.exit_requested
    &&& output.cues@.len() == bounces + strike_cues + hits
    &&& forall|k: int| 0 <= k < bounces ==> is_bounce_cue(output.cues@[k])
    &&& struck ==> output.cues@[bounces as int] == AudioCue::Explosion
    &&& forall|k: int|
        bounces + strike_cues <= k < output.cues@.len() ==> output.cues@[k] == AudioCue::Pickup
}

/// Two games hold the same resources: all but the store is equal.
pub open spec fn same_resources(a: Game, b: Game) -> bool {
    &&& a.score == b.score
    &&& a.high_scores.entries() == b.high_scores.entries()
    &&& a.star_spawn_timer == b.star_spawn_timer
    &&& a.enemy_spawn_timer == b.enemy_spawn_timer
    &&& a.events == b.events
    &&& a.phase == b.phase
    &&& a.score_watch == b.score_watch
    &&& a.high_scores_watch == b.high_scores_watch
}

/// The score never falls in a frame, and rises by the number of stars that
/// the player picks up in it.
pub proof fn lemma_score_never_falls(
    before: Game,
    input: FrameInput,
    spawned: Slots,
    after: Game,
    output: FrameOutput,
)
    requires
        stepped(before, input, spawned, after, output),
    ensures
        after.score.value >= before.score.value,
        after.score.value - before.score.value == pickup_count(
            strike_stage(reflection_stage(motion_stage(spawned, input), input)),
        ),
{
}

/// A frame changes the list of high scores only by appending to it, and
/// appends at most one score: the score at which the run ended in this
/// frame.
pub proof fn lemma_high_scores_only_grow(
    before: Game,
    input: FrameInput,
    spawned: Slots,
    after: Game,
    output: FrameOutput,
)
    requires
        stepped(before, input, spawned, after, output),
    ensures
        after.high_scores.entries() == before.high_scores.entries() || (before.phase
            == Phase::Running && after.phase == Phase::Ended && output.final_score == Some(
            before.score.value,
        ) && after.high_scores.entries() == before.high_scores.entries().push(
            (player_label(), before.score.value),
        )),
        after.phase == Phase::Running ==> before.phase == Phase::Running,
{
}

/// A frame in which the player dies on an enemy announces the final score
/// once and plays the explosion once, however many enemies are on the
/// player; a frame in which it does not die does neither.
pub proof fn lemma_one_game_over_per_frame(
    before: Game,
    input: FrameInput,
    spawned: Slots,
    after: Game,
    output: FrameOutput,
)
    requires
        stepped(before, input, spawned, after, output),
    ensures
        output.final_score is Some <==> player_struck(
            reflection_stage(motion_stage(spawned, input), input),
        ),
        output.final_score is Some ==> output.final_score == Some(before.score.value)
            && output.cues@[frame_bounces(motion_stage(spawned, input), input) as int]
            == AudioCue::Explosion,
        forall|k: int|
            0 <= k < output.cues@.len() && output.cues@[k] == AudioCue::Explosion ==> output.final_score is Some
                && k == frame_bounces(motion_stage(spawned, input), input),
{
}

impl Game {
    /// The store is well formed and no event is left over from a frame.
    pub open spec fn wf(&self) -> bool {
        self.store.wf() && self.events.pending is None
    }

    /// A game without entities: the score is 0, no high score is recorded,
    /// the timers have their periods and the run is going.
    pub fn new() -> (game: Game)
        ensures
            game.wf(),
            game.store@ == Seq::<Option<crate::components::Body>>::empty(),
            game.score.value == 0,
            game.high_scores.entries() == Seq::<(Seq<char>, u32)>::empty(),
            game.star_spawn_timer.timer.period_of() == STAR_SPAWN_TIME,
            game.star_spawn_timer.timer.elapsed_of() == 0,
            !game.star_spawn_timer.timer.is_finished(),
            game.enemy_spawn_timer.timer.period_of() == ENEMY_SPAWN_TIME,
            game.enemy_spawn_timer.timer.elapsed_of() == 0,
            !game.enemy_spawn_timer.timer.is_finished(),
            game.star_spawn_timer.timer.wf(),
            game.enemy_spawn_timer.timer.wf(),
            game.phase == Phase::Running,
            game.score_watch.seen is None,
            game.high_scores_watch.seen is None,
    {
        Game {
            store: EntityStore::new(),
            score: Score::default(),
            high_scores: HighScores::default(),
            star_spawn_timer: StarSpawnTimer::default(),
            enemy_spawn_timer: EnemySpawnTimer::default(),
            events: EventSlot::new(),
            phase: Phase::Running,
            score_watch: ScoreWatch { seen: None },
            high_scores_watch: HighScoresWatch { seen: None },
        }
    }

    /// Sets the field up: the player and the camera at the centre, then
    /// the enemies and the stars of the start at points drawn at random.
    /// Refused, with nothing changed, while a player is alive.
    pub fn startup(&mut self, bounds: &FieldBounds) -> (out: Result<(), Error>)
        requires
            old(self).wf(),
            bounds.wf(),
        ensures
            final(self).wf(),
            same_resources(*old(self), *final(self)),
            out is Err <==> has_player(old(self).store@),
            out matches Err(e) ==> e == Error::PlayerExists && final(self).store@ == old(
                self,
            ).store@,
            out is Ok ==> {
                let base = old(self).store@.push(
                    Some(still_body(Kind::Player, bounds.center_of())),
                ).push(Some(still_body(Kind::Camera, bounds.center_of())));
                let mid = final(self).store@.take(base.len() + NUMBER_OF_ENEMIES);
                &&& grown_by(base, mid, NUMBER_OF_ENEMIES as int, Kind::Enemy, *bounds)
                &&& grown_by(mid, final(self).store@, NUMBER_OF_STARS as int, Kind::Star, *bounds)
            },
    {
        match spawn_player(&mut self.store, bounds) {
            Err(e) => Err(e),
            Ok(_) => {
                spawn_camera(&mut self.store, bounds);
                spawn_enemies(&mut self.store, NUMBER_OF_ENEMIES, bounds);
                let ghost mid = self.store@;
                spawn_stars(&mut self.store, NUMBER_OF_STARS, bounds);
                assert(self.store@.take(mid.len() as int) =~= mid);
                Ok(())
            },
        }
    }

    /// Runs one frame: the reflection marks of the last frame are dropped
    /// and the timers tick; the enemy and the star that are due spawn; the
    /// player moves and is contained, the enemies move and are reflected;
    /// the player dies on an enemy or else picks up stars; the listeners
    /// record and report; the event slot is cleared. Without a field
    /// nothing spawns and nothing is contained or reflected.
    ///
    /// The score must have room for the stars that the frame can pick up,
    /// which are at most as many as the store has slots after the spawns.
    pub fn step(&mut self, input: &FrameInput) -> (output: FrameOutput)
        requires
            old(self).wf(),
            input.bounds matches Some(b) ==> b.wf(),
            old(self).score.value + old(self).store@.len() + 2 <= u32::MAX,
        ensures
            final(self).wf(),
            exists|spawned: Slots| stepped(*old(self), *input, spawned, *final(self), output),
    {
        let mut cues: Vec<AudioCue> = Vec::new();
        begin_frame(&mut self.store);
        tick_enemy_spawn_timer(&mut self.enemy_spawn_timer, input.delta);
        tick_star_spawn_timer(&mut self.star_spawn_timer, input.delta);
        match input.bounds {
            Some(b) => {
                spawn_enemies_over_time(&mut self.store, &b, &self.enemy_spawn_timer);
                let ghost mid = self.store@;
                spawn_stars_over_time(&mut self.store, &b, &self.star_spawn_timer);
                assert(self.store@.take(mid.len() as int) =~= mid);
            },
            None => {},
        }
        let ghost spawned = self.store@;
        player_movement(&mut self.store, &input.keys, input.delta);
        match input.bounds {
            Some(b) => {
                confine_player_movement(&mut self.store, &b);
            },
            None => {},
        }
        enemy_movement(&mut self.store, input.delta);
        match input.bounds {
            Some(b) => {
                update_enemy_direction(&mut self.store, &b, &mut cues);
            },
            None => {},
        }
        enemy_hit_player(&mut self.store, &self.score, &mut self.events, &mut cues);
        proof {
            lemma_pickups_at_most_len(self.store@, self.store@.len() as int);
        }
        player_hit_star(&mut self.store, &mut self.score, &mut cues);
        let final_score = handle_game_over(&self.events);
        update_high_scores(&self.events, &mut self.phase, &mut self.high_scores);
        let score_changed = update_score(&self.score, &mut self.score_watch);
        let high_scores_changed = high_scores_updated(
            &self.high_scores,
            &mut self.high_scores_watch,
        );
        self.events.clear();
        let output = FrameOutput {
            cues,
            final_score,
            score_changed,
            high_scores_changed,
            exit: input.exit_requested,
        };
        proof {
            assert(stepped(*old(self), *input, spawned, *self, output));
        }
        output
    }
}

} // verus!
