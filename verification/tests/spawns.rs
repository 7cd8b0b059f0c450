use bevy_xp::components::{Body, Kind};
use bevy_xp::direction::{Direction, UNIT};
use bevy_xp::error::Error;
use bevy_xp::field::FieldBounds;
use bevy_xp::geometry::Position;
use bevy_xp::resources::{EnemySpawnTimer, StarSpawnTimer};
use bevy_xp::store::{Entity, EntityStore};
use bevy_xp::systems::spawns::{
    heading, spawn_camera, spawn_enemies, spawn_enemies_over_time, spawn_enemy_at, spawn_player,
    spawn_star_at, spawn_stars, spawn_stars_over_time, tick_enemy_spawn_timer,
    tick_star_spawn_timer,
};

fn field() -> FieldBounds {
    FieldBounds::new(800_000, 600_000).unwrap()
}

fn on_field(bounds: &FieldBounds, p: Position) -> bool {
    0 <= p.x && p.x < bounds.width && 0 <= p.y && p.y < bounds.height
}

#[test]
fn the_player_spawns_at_the_centre() {
    let mut store = EntityStore::new();
    let player = spawn_player(&mut store, &field()).unwrap();
    assert_eq!(player, Entity { index: 0 });
    assert_eq!(
        store.get(player),
        Some(Body::player(Position { x: 400_000, y: 300_000 }))
    );
    assert_eq!(store.player(), Some(player));
}

#[test]
fn a_spawned_player_lies_wholly_on_the_field() {
    let radius = Kind::Player.radius();
    for (width, height) in [
        (64_000, 64_000),
        (64_001, 64_000),
        (65_000, 70_001),
        (800_000, 600_000),
        (i32::MAX, i32::MAX),
    ] {
        let bounds = FieldBounds::new(width, height).unwrap();
        let mut store = EntityStore::new();
        let player = spawn_player(&mut store, &bounds).unwrap();
        let p = store.get(player).unwrap().position;
        assert!(radius <= p.x && p.x <= width - radius, "{} x {}", width, height);
        assert!(radius <= p.y && p.y <= height - radius, "{} x {}", width, height);
    }
}

#[test]
fn a_second_player_does_not_spawn() {
    let mut store = EntityStore::new();
    let first = spawn_player(&mut store, &field()).unwrap();
    assert_eq!(spawn_player(&mut store, &field()), Err(Error::PlayerExists));
    assert_eq!(store.len(), 1);
    assert_eq!(store.player(), Some(first));
}

#[test]
fn the_camera_spawns_at_the_centre() {
    let mut store = EntityStore::new();
    let camera = spawn_camera(&mut store, &field());
    assert_eq!(
        store.get(camera),
        Some(Body::camera(Position { x: 400_000, y: 300_000 }))
    );
    let again = spawn_camera(&mut store, &field());
    assert_eq!(again, Entity { index: 1 });
    assert_eq!(store.count(Kind::Camera), 2);
}

#[test]
fn an_enemy_heads_away_from_the_origin() {
    assert_eq!(
        heading(Position { x: 300_000, y: 400_000 }),
        Direction { x: 600_000, y: 800_000 }
    );
    assert_eq!(heading(Position { x: 5, y: 0 }), Direction { x: UNIT, y: 0 });
    assert_eq!(heading(Position { x: 0, y: 5 }), Direction { x: 0, y: UNIT });
    assert_eq!(
        heading(Position { x: -1, y: -1 }),
        Direction { x: -707_107, y: -707_107 }
    );
}

#[test]
fn an_enemy_at_the_origin_heads_along_the_first_axis() {
    assert_eq!(heading(Position { x: 0, y: 0 }), Direction { x: UNIT, y: 0 });
    let mut store = EntityStore::new();
    let enemy = spawn_enemy_at(&mut store, Position { x: 0, y: 0 });
    assert_eq!(
        store.get(enemy),
        Some(Body::enemy(Position { x: 0, y: 0 }, Direction { x: UNIT, y: 0 }))
    );
}

#[test]
fn an_enemy_spawns_at_a_point() {
    let mut store = EntityStore::new();
    let p = Position { x: 300_000, y: 400_000 };
    let enemy = spawn_enemy_at(&mut store, p);
    assert_eq!(
        store.get(enemy),
        Some(Body::enemy(p, Direction { x: 600_000, y: 800_000 }))
    );
    let star = spawn_star_at(&mut store, p);
    assert_eq!(store.get(star), Some(Body::star(p)));
    assert_eq!(star, Entity { index: 1 });
}

#[test]
fn enemies_spawn_on_the_field_with_unit_headings() {
    let bounds = field();
    let mut store = EntityStore::new();
    let player = spawn_player(&mut store, &bounds).unwrap();
    spawn_enemies(&mut store, 25, &bounds);
    assert_eq!(store.len(), 26);
    assert_eq!(store.count(Kind::Enemy), 25);
    assert_eq!(store.player(), Some(player));
    for index in 1..26 {
        let body = store.get(Entity { index }).unwrap();
        assert_eq!(body.kind, Kind::Enemy);
        assert!(on_field(&bounds, body.position));
        assert!(body.direction.unit());
        assert_eq!(body.direction, heading(body.position));
        assert_eq!(body, Body::enemy(body.position, heading(body.position)));
    }
}

#[test]
fn stars_spawn_on_the_field() {
    let bounds = field();
    let mut store = EntityStore::new();
    spawn_stars(&mut store, 40, &bounds);
    assert_eq!(store.len(), 40);
    assert_eq!(store.count(Kind::Star), 40);
    for index in 0..40 {
        let body = store.get(Entity { index }).unwrap();
        assert!(on_field(&bounds, body.position));
        assert_eq!(body, Body::star(body.position));
    }
}

#[test]
fn spawning_none_changes_nothing() {
    let bounds = field();
    let mut store = EntityStore::new();
    spawn_stars(&mut store, 0, &bounds);
    spawn_enemies(&mut store, 0, &bounds);
    assert_eq!(store.len(), 0);
}

#[test]
fn spawns_on_a_field_without_area_are_at_the_origin() {
    let bounds = FieldBounds::new(0, 0).unwrap();
    let mut store = EntityStore::new();
    spawn_enemies(&mut store, 3, &bounds);
    spawn_stars(&mut store, 2, &bounds);
    for index in 0..3 {
        assert_eq!(
            store.get(Entity { index }),
            Some(Body::enemy(Position { x: 0, y: 0 }, Direction { x: UNIT, y: 0 }))
        );
    }
    for index in 3..5 {
        assert_eq!(
            store.get(Entity { index }),
            Some(Body::star(Position { x: 0, y: 0 }))
        );
    }
}

#[test]
fn draws_differ() {
    // 64 draws of 32 bits that all select the same point would be a fault
    // of the source of randomness, or of how it is called.
    let bounds = field();
    let mut store = EntityStore::new();
    spawn_stars(&mut store, 32, &bounds);
    let first = store.get(Entity { index: 0 }).unwrap().position;
    let mut differs = false;
    for index in 1..32 {
        if store.get(Entity { index }).unwrap().position != first {
            differs = true;
        }
    }
    assert!(differs);
}

#[test]
fn a_star_spawns_when_its_timer_fires() {
    let bounds = field();
    let mut store = EntityStore::new();
    let mut timer = StarSpawnTimer::default();
    spawn_stars_over_time(&mut store, &bounds, &timer);
    assert_eq!(store.len(), 0);
    tick_star_spawn_timer(&mut timer, 400_000_000);
    spawn_stars_over_time(&mut store, &bounds, &timer);
    tick_star_spawn_timer(&mut timer, 400_000_000);
    spawn_stars_over_time(&mut store, &bounds, &timer);
    assert_eq!(store.len(), 0);
    tick_star_spawn_timer(&mut timer, 400_000_000);
    spawn_stars_over_time(&mut store, &bounds, &timer);
    assert_eq!(store.len(), 1);
    let star = store.get(Entity { index: 0 }).unwrap();
    assert_eq!(star, Body::star(star.position));
    assert!(on_field(&bounds, star.position));
    tick_star_spawn_timer(&mut timer, 400_000_000);
    spawn_stars_over_time(&mut store, &bounds, &timer);
    assert_eq!(store.len(), 1);
}

#[test]
fn an_enemy_spawns_when_its_timer_fires() {
    let bounds = field();
    let mut store = EntityStore::new();
    let mut timer = EnemySpawnTimer::default();
    tick_enemy_spawn_timer(&mut timer, 4_999_999_999);
    spawn_enemies_over_time(&mut store, &bounds, &timer);
    assert_eq!(store.len(), 0);
    tick_enemy_spawn_timer(&mut timer, 1);
    spawn_enemies_over_time(&mut store, &bounds, &timer);
    assert_eq!(store.len(), 1);
    let enemy = store.get(Entity { index: 0 }).unwrap();
    assert_eq!(enemy, Body::enemy(enemy.position, heading(enemy.position)));
    assert!(on_field(&bounds, enemy.position));
}

#[test]
fn one_entity_spawns_however_many_periods_a_tick_spans() {
    let bounds = field();
    let mut store = EntityStore::new();
    let mut stars = StarSpawnTimer::default();
    let mut enemies = EnemySpawnTimer::default();
    tick_star_spawn_timer(&mut stars, 60_000_000_000);
    tick_enemy_spawn_timer(&mut enemies, 60_000_000_000);
    spawn_stars_over_time(&mut store, &bounds, &stars);
    spawn_enemies_over_time(&mut store, &bounds, &enemies);
    assert_eq!(store.count(Kind::Star), 1);
    assert_eq!(store.count(Kind::Enemy), 1);
}

#[test]
fn the_flag_of_a_timer_spawns_on_every_call_until_the_next_tick() {
    let bounds = field();
    let mut store = EntityStore::new();
    let mut stars = StarSpawnTimer::default();
    tick_star_spawn_timer(&mut stars, 1_000_000_000);
    spawn_stars_over_time(&mut store, &bounds, &stars);
    spawn_stars_over_time(&mut store, &bounds, &stars);
    assert_eq!(store.count(Kind::Star), 2);
}
