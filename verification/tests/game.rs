use bevy_xp::audio::AudioCue;
use bevy_xp::components::{Body, Kind};
use bevy_xp::direction::Direction;
use bevy_xp::error::Error;
use bevy_xp::field::FieldBounds;
use bevy_xp::game::{FrameInput, Game};
use bevy_xp::geometry::Position;
use bevy_xp::store::Entity;
use bevy_xp::systems::movement::DirectionalInput;
use bevy_xp::systems::score::Phase;
use bevy_xp::systems::spawns::heading;
use bevy_xp::{
    ENEMY_SIZE, ENEMY_SPAWN_TIME, ENEMY_SPEED, NUMBER_OF_ENEMIES, NUMBER_OF_STARS, PLAYER_SIZE,
    PLAYER_SPEED, STAR_SIZE, STAR_SPAWN_TIME, UNITS_PER_PIXEL,
};

fn field() -> FieldBounds {
    FieldBounds::new(800_000, 600_000).unwrap()
}

fn at(x: i32, y: i32) -> Position {
    Position { x, y }
}

fn idle(delta: u64) -> FrameInput {
    FrameInput {
        delta,
        keys: DirectionalInput { up: false, down: false, left: false, right: false },
        bounds: Some(field()),
        exit_requested: false,
    }
}

#[test]
fn the_constants_of_the_game() {
    assert_eq!(UNITS_PER_PIXEL, 1_000);
    assert_eq!(PLAYER_SIZE, 64 * UNITS_PER_PIXEL);
    assert_eq!(ENEMY_SIZE, 64 * UNITS_PER_PIXEL);
    assert_eq!(STAR_SIZE, 30 * UNITS_PER_PIXEL);
    assert_eq!(PLAYER_SPEED, 500_000);
    assert_eq!(ENEMY_SPEED, 200_000);
    assert_eq!(NUMBER_OF_ENEMIES, 4);
    assert_eq!(NUMBER_OF_STARS, 10);
    assert_eq!(STAR_SPAWN_TIME, 1_000_000_000);
    assert_eq!(ENEMY_SPAWN_TIME, 5_000_000_000);
}

#[test]
fn a_new_game() {
    let game = Game::new();
    assert_eq!(game.store.len(), 0);
    assert_eq!(game.score.value, 0);
    assert!(game.high_scores.scores.is_empty());
    assert_eq!(game.phase, Phase::Running);
    assert_eq!(game.events.read(), None);
    assert_eq!(game.star_spawn_timer.timer.period(), STAR_SPAWN_TIME);
    assert_eq!(game.enemy_spawn_timer.timer.period(), ENEMY_SPAWN_TIME);
}

#[test]
fn startup_fills_the_field() {
    let bounds = field();
    let mut game = Game::new();
    assert_eq!(game.startup(&bounds), Ok(()));
    assert_eq!(game.store.len(), 2 + NUMBER_OF_ENEMIES + NUMBER_OF_STARS);
    assert_eq!(
        game.store.get(Entity { index: 0 }),
        Some(Body::player(at(400_000, 300_000)))
    );
    assert_eq!(
        game.store.get(Entity { index: 1 }),
        Some(Body::camera(at(400_000, 300_000)))
    );
    for index in 2..2 + NUMBER_OF_ENEMIES {
        let body = game.store.get(Entity { index }).unwrap();
        assert_eq!(body, Body::enemy(body.position, heading(body.position)));
        assert!(0 <= body.position.x && body.position.x < 800_000);
        assert!(0 <= body.position.y && body.position.y < 600_000);
    }
    for index in 2 + NUMBER_OF_ENEMIES..2 + NUMBER_OF_ENEMIES + NUMBER_OF_STARS {
        let body = game.store.get(Entity { index }).unwrap();
        assert_eq!(body, Body::star(body.position));
        assert!(0 <= body.position.x && body.position.x < 800_000);
        assert!(0 <= body.position.y && body.position.y < 600_000);
    }
}

#[test]
fn a_second_startup_is_refused() {
    let bounds = field();
    let mut game = Game::new();
    game.startup(&bounds).unwrap();
    let len = game.store.len();
    assert_eq!(game.startup(&bounds), Err(Error::PlayerExists));
    assert_eq!(game.store.len(), len);
}

#[test]
fn the_first_frame_reports_the_score_and_the_high_scores() {
    let mut game = Game::new();
    let out = game.step(&idle(16_666_666));
    assert_eq!(out.score_changed, Some(0));
    assert!(out.high_scores_changed);
    assert_eq!(out.final_score, None);
    assert!(!out.exit);
    assert!(out.cues.is_empty());
    let out = game.step(&idle(16_666_666));
    assert_eq!(out.score_changed, None);
    assert!(!out.high_scores_changed);
}

#[test]
fn a_frame_passes_the_request_to_leave_on() {
    let mut game = Game::new();
    let mut input = idle(16_666_666);
    input.exit_requested = true;
    assert!(game.step(&input).exit);
    input.exit_requested = false;
    assert!(!game.step(&input).exit);
}

#[test]
fn a_frame_ticks_both_timers() {
    let mut game = Game::new();
    game.step(&idle(400_000_000));
    assert_eq!(game.star_spawn_timer.timer.elapsed(), 400_000_000);
    assert_eq!(game.enemy_spawn_timer.timer.elapsed(), 400_000_000);
    assert_eq!(game.store.len(), 0);
    game.step(&idle(400_000_000));
    assert_eq!(game.store.len(), 0);
    game.step(&idle(400_000_000));
    assert!(game.star_spawn_timer.timer.finished());
    assert_eq!(game.star_spawn_timer.timer.elapsed(), 200_000_000);
    assert!(!game.enemy_spawn_timer.timer.finished());
    assert_eq!(game.store.len(), 1);
    assert_eq!(game.store.count(Kind::Star), 1);
}

#[test]
fn enemies_spawn_before_stars() {
    let mut game = Game::new();
    game.step(&idle(5_000_000_000));
    assert_eq!(game.store.len(), 2);
    assert_eq!(game.store.get(Entity { index: 0 }).unwrap().kind, Kind::Enemy);
    assert_eq!(game.store.get(Entity { index: 1 }).unwrap().kind, Kind::Star);
}

#[test]
fn a_frame_without_a_field_spawns_and_contains_nothing() {
    let mut game = Game::new();
    let player = game.store.create(Body::player(at(-5, -5))).unwrap();
    let enemy = game.store.create(Body::enemy(at(900_000, 0), Direction::east())).unwrap();
    let mut input = idle(5_000_000_000);
    input.bounds = None;
    input.keys.left = true;
    let out = game.step(&input);
    assert_eq!(game.store.len(), 2);
    assert!(game.star_spawn_timer.timer.finished());
    assert!(game.enemy_spawn_timer.timer.finished());
    assert_eq!(game.store.get(player), Some(Body::player(at(-2_500_005, -5))));
    assert_eq!(
        game.store.get(enemy),
        Some(Body::enemy(at(1_900_000, 0), Direction::east()))
    );
    assert!(out.cues.is_empty());
}

#[test]
fn the_player_moves_and_is_contained_in_a_frame() {
    let mut game = Game::new();
    let player = game.store.create(Body::player(at(400_000, 300_000))).unwrap();
    let mut input = idle(100_000_000);
    input.keys.right = true;
    game.step(&input);
    assert_eq!(game.store.get(player), Some(Body::player(at(450_000, 300_000))));
    let mut input = idle(900_000_000);
    input.keys.right = true;
    input.keys.up = true;
    game.step(&input);
    assert_eq!(game.store.get(player), Some(Body::player(at(768_000, 568_000))));
}

#[test]
fn an_enemy_bounces_in_a_frame() {
    let mut game = Game::new();
    let enemy = game.store.create(Body::enemy(at(760_000, 300_000), Direction::east())).unwrap();
    let out = game.step(&idle(100_000_000));
    let body = game.store.get(enemy).unwrap();
    assert_eq!(body.position, at(780_000, 300_000));
    assert_eq!(body.direction, Direction { x: -1_000_000, y: 0 });
    assert_eq!(out.cues.len(), 1);
    assert!(out.cues[0] == AudioCue::PluckOne || out.cues[0] == AudioCue::PluckTwo);
    // It comes back onto the field in the next frame and is left alone.
    let out = game.step(&idle(100_000_000));
    let body = game.store.get(enemy).unwrap();
    assert_eq!(body.position, at(760_000, 300_000));
    assert_eq!(body.direction, Direction { x: -1_000_000, y: 0 });
    assert!(out.cues.is_empty());
}

#[test]
fn the_player_dies_on_an_enemy() {
    let mut game = Game::new();
    game.score.value = 4;
    let player = game.store.create(Body::player(at(400_000, 300_000))).unwrap();
    let enemy = game.store.create(Body::enemy(at(400_000, 300_000), Direction::east())).unwrap();
    let other = game.store.create(Body::enemy(at(410_000, 300_000), Direction::east())).unwrap();
    let star = game.store.create(Body::star(at(400_000, 300_000))).unwrap();
    let out = game.step(&idle(16_666_666));
    assert_eq!(out.final_score, Some(4));
    assert_eq!(out.cues, vec![AudioCue::Explosion]);
    assert!(out.high_scores_changed);
    assert_eq!(out.score_changed, Some(4));
    assert_eq!(game.store.get(player), None);
    assert!(game.store.contains(enemy) && game.store.contains(other));
    // The player died before it could pick the star up.
    assert!(game.store.contains(star));
    assert_eq!(game.score.value, 4);
    assert_eq!(game.phase, Phase::Ended);
    assert_eq!(game.high_scores.scores, vec![("Player".to_string(), 4)]);
    assert_eq!(game.events.read(), None);
    // Nothing of this happens again.
    let out = game.step(&idle(16_666_666));
    assert_eq!(out.final_score, None);
    assert!(out.cues.is_empty());
    assert!(!out.high_scores_changed);
    assert_eq!(out.score_changed, None);
    assert_eq!(game.high_scores.scores.len(), 1);
    assert_eq!(game.phase, Phase::Ended);
}

#[test]
fn the_player_picks_stars_up_in_a_frame() {
    let mut game = Game::new();
    let player = game.store.create(Body::player(at(400_000, 300_000))).unwrap();
    let a = game.store.create(Body::star(at(400_000, 300_000))).unwrap();
    let b = game.store.create(Body::star(at(500_000, 300_000))).unwrap();
    let c = game.store.create(Body::star(at(0, 0))).unwrap();
    let out = game.step(&idle(16_666_666));
    assert_eq!(out.score_changed, Some(1));
    assert_eq!(out.cues, vec![AudioCue::Pickup]);
    assert_eq!(game.score.value, 1);
    assert!(!game.store.contains(a));
    // The player moves onto the second star and picks it up in the frame
    // in which it arrives.
    let mut input = idle(200_000_000);
    input.keys.right = true;
    let out = game.step(&input);
    assert_eq!(game.store.get(player), Some(Body::player(at(500_000, 300_000))));
    assert_eq!(out.score_changed, Some(2));
    assert_eq!(out.cues, vec![AudioCue::Pickup]);
    assert!(!game.store.contains(b));
    assert!(game.store.contains(c));
    assert_eq!(game.phase, Phase::Running);
    assert!(game.high_scores.scores.is_empty());
}

#[test]
fn a_run_of_many_frames_keeps_its_rules() {
    let bounds = field();
    let mut game = Game::new();
    game.startup(&bounds).unwrap();
    let mut last_score = 0;
    let mut game_overs = 0;
    for frame in 0..600 {
        let mut input = idle(16_666_666);
        input.keys.right = frame % 120 < 60;
        input.keys.left = frame % 120 >= 60;
        input.keys.up = frame % 80 < 40;
        input.keys.down = frame % 80 >= 40;
        let stars = game.store.count(Kind::Star);
        let out = game.step(&input);
        assert!(game.score.value >= last_score);
        assert!((game.score.value - last_score) as usize <= stars + 1);
        last_score = game.score.value;
        assert!(game.store.count(Kind::Player) <= 1);
        if out.final_score.is_some() {
            game_overs += 1;
        }
        if let Some(player) = game.store.player() {
            let p = game.store.get(player).unwrap().position;
            assert!(32_000 <= p.x && p.x <= 768_000);
            assert!(32_000 <= p.y && p.y <= 568_000);
        }
        for enemy in game.store.query(Kind::Enemy) {
            assert!(game.store.get(enemy).unwrap().direction.unit());
        }
        assert_eq!(game.events.read(), None);
    }
    assert!(game_overs <= 1);
    assert_eq!(game.high_scores.scores.len(), game_overs);
    assert_eq!(game.phase == Phase::Ended, game_overs == 1);
    // Just under ten seconds: one more enemy and nine more stars.
    assert_eq!(game.store.count(Kind::Enemy), NUMBER_OF_ENEMIES + 1);
    assert_eq!(game.store.len(), 2 + NUMBER_OF_ENEMIES + NUMBER_OF_STARS + 1 + 9);
}
