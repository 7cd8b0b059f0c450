use bevy_xp::resources::{EnemySpawnTimer, StarSpawnTimer};
use bevy_xp::systems::spawns::{tick_enemy_spawn_timer, tick_star_spawn_timer};
use bevy_xp::timer::SpawnTimer;

#[test]
fn a_new_timer_has_not_fired() {
    let timer = SpawnTimer::new(1_000_000_000);
    assert_eq!(timer.period(), 1_000_000_000);
    assert_eq!(timer.elapsed(), 0);
    assert!(!timer.finished());
}

#[test]
fn star_timer_fires_on_third_tick() {
    let mut timer = SpawnTimer::new(1_000_000_000);
    timer.tick(400_000_000);
    assert!(!timer.finished());
    assert_eq!(timer.elapsed(), 400_000_000);
    timer.tick(400_000_000);
    assert!(!timer.finished());
    assert_eq!(timer.elapsed(), 800_000_000);
    timer.tick(400_000_000);
    assert!(timer.finished());
    assert_eq!(timer.elapsed(), 200_000_000);
}

#[test]
fn finished_holds_for_one_tick_only() {
    let mut timer = SpawnTimer::new(1_000_000_000);
    timer.tick(1_100_000_000);
    assert!(timer.finished());
    assert!(timer.finished());
    timer.tick(800_000_000);
    assert!(!timer.finished());
    assert_eq!(timer.elapsed(), 900_000_000);
    timer.tick(600_000_000);
    assert!(timer.finished());
    assert_eq!(timer.elapsed(), 500_000_000);
}

#[test]
fn a_tick_of_exactly_the_period_fires() {
    let mut timer = SpawnTimer::new(1_000_000_000);
    timer.tick(999_999_999);
    assert!(!timer.finished());
    timer.tick(1);
    assert!(timer.finished());
    assert_eq!(timer.elapsed(), 0);
}

#[test]
fn a_tick_over_several_periods_keeps_the_remainder() {
    let mut timer = SpawnTimer::new(1_000_000_000);
    timer.tick(6_250_000_000);
    assert!(timer.finished());
    assert_eq!(timer.elapsed(), 250_000_000);
    timer.tick(0);
    assert!(!timer.finished());
    assert_eq!(timer.elapsed(), 250_000_000);
}

#[test]
fn a_timer_without_a_period_fires_on_every_tick() {
    let mut timer = SpawnTimer::new(0);
    timer.tick(0);
    assert!(timer.finished());
    assert_eq!(timer.elapsed(), 0);
    timer.tick(5);
    assert!(timer.finished());
    assert_eq!(timer.elapsed(), 0);
}

#[test]
fn ticks_at_the_ends_of_the_range() {
    let mut timer = SpawnTimer::new(u64::MAX);
    timer.tick(u64::MAX - 1);
    assert!(!timer.finished());
    assert_eq!(timer.elapsed(), u64::MAX - 1);
    timer.tick(u64::MAX);
    assert!(timer.finished());
    assert_eq!(timer.elapsed(), u64::MAX - 1);
    let mut short = SpawnTimer::new(7);
    short.tick(u64::MAX);
    assert!(short.finished());
    assert_eq!(short.elapsed(), u64::MAX % 7);
}

#[test]
fn the_timers_of_the_game_have_their_periods() {
    let stars = StarSpawnTimer::default();
    assert_eq!(stars.timer.period(), 1_000_000_000);
    assert_eq!(stars.timer.elapsed(), 0);
    assert!(!stars.timer.finished());
    let enemies = EnemySpawnTimer::default();
    assert_eq!(enemies.timer.period(), 5_000_000_000);
    assert_eq!(enemies.timer.elapsed(), 0);
    assert!(!enemies.timer.finished());
}

#[test]
fn the_tick_systems_advance_their_timers() {
    let mut stars = StarSpawnTimer::default();
    let mut enemies = EnemySpawnTimer::default();
    for _ in 0..2 {
        tick_star_spawn_timer(&mut stars, 600_000_000);
        tick_enemy_spawn_timer(&mut enemies, 600_000_000);
    }
    assert!(stars.timer.finished());
    assert_eq!(stars.timer.elapsed(), 200_000_000);
    assert!(!enemies.timer.finished());
    assert_eq!(enemies.timer.elapsed(), 1_200_000_000);
    for _ in 0..7 {
        tick_enemy_spawn_timer(&mut enemies, 600_000_000);
    }
    assert!(enemies.timer.finished());
    assert_eq!(enemies.timer.elapsed(), 400_000_000);
}
