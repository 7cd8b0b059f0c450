//! The spawner: puts the player, the camera, enemies and stars on the
//! field, at the centre or at points drawn at random.

use vstd::prelude::*;
use crate::components::{enemy_body, still_body, Body, Kind};
use crate::direction::{unit_toward, Direction, UNIT};
use crate::error::Error;
use crate::field::FieldBounds;
use crate::geometry::Position;
use crate::resources::{EnemySpawnTimer, StarSpawnTimer};
use crate::rng::random_u32;
use crate::store::{has_player, Entity, EntityStore, Slots};
use crate::timer::{ticked_elapsed, ticked_finished};

verus! {

/// The heading that an enemy gets when it spawns at a point: the unit
/// vector from the origin of the field to the point. At the origin itself
/// there is no such vector, and the enemy heads along the first axis.
pub open spec fn heading_of(p: Position) -> Direction {
    if p.x == 0 && p.y == 0 {
        Direction { x: UNIT, y: 0 }
    } else {
        unit_toward(p.x as int, p.y as int)
    }
}

/// The entity of a kind as it spawns at a point.
pub open spec fn spawned_body(kind: Kind, p: Position) -> Body {
    if kind == Kind::Enemy {
        enemy_body(p, heading_of(p))
    } else {
        still_body(kind, p)
    }
}

/// `after` is `before` with `n` more entities of a kind, each as it spawns
/// at some point of the field.
pub open spec fn grown_by(before: Slots, after: Slots, n: int, kind: Kind, bounds: FieldBounds) -> bool {
    &&& after.len() == before.len() + n
    &&& forall|h: int| 0 <= h < before.len() ==> after[h] == before[h]
    &&& forall|h: int|
        before.len() <= h < after.len() ==> ((#[trigger] after[h]) matches Some(b) && bounds.offers(b.position)
            && b == spawned_body(kind, b.position))
}

/// The heading that an enemy gets when it spawns at a point.
pub fn heading(p: Position) -> (d: Direction)
    ensures
        d == heading_of(p),
        d.is_unit(),
{
    match Direction::normalize(p.x, p.y) {
        Ok(d) => d,
        Err(_) => Direction::east(),
    }
}

/// Spawns the player at the centre of the field. Refused while a player
/// is alive.
pub fn spawn_player(store: &mut EntityStore, bounds: &FieldBounds) -> (out: Result<Entity, Error>)
    requires
        old(store).wf(),
        bounds.wf(),
    ensures
        final(store).wf(),
        out is Err <==> has_player(old(store)@),
        out matches Err(e) ==> e == Error::PlayerExists && final(store)@ == old(store)@,
        out matches Ok(e) ==> e.index == old(store)@.len() && final(store)@ == old(store)@.push(
            Some(still_body(Kind::Player, bounds.center_of())),
        ),
        bounds.fits(Kind::Player.radius_of()) ==> bounds.holds(
            bounds.center_of(),
            Kind::Player.radius_of(),
        ),
{
    store.create(Body::player(bounds.center()))
}

/// Spawns the anchor of the camera at the centre of the field.
pub fn spawn_camera(store: &mut EntityStore, bounds: &FieldBounds) -> (e: Entity)
    requires
        old(store).wf(),
        bounds.wf(),
    ensures
        final(store).wf(),
        e.index == old(store)@.len(),
        final(store)@ == old(store)@.push(Some(still_body(Kind::Camera, bounds.center_of()))),
{
    let index = store.len();
    let _ = store.create(Body::camera(bounds.center()));
    Entity { index }
}

/// Spawns an enemy at a point. It heads away from the origin of the field.
pub fn spawn_enemy_at(store: &mut EntityStore, p: Position) -> (e: Entity)
    requires
        old(store).wf(),
    ensures
        final(store).wf(),
        e.index == old(store)@.len(),
        final(store)@ == old(store)@.push(Some(spawned_body(Kind::Enemy, p))),
{
    let index = store.len();
    let _ = store.create(Body::enemy(p, heading(p)));
    Entity { index }
}

/// Spawns a star at a point.
pub fn spawn_star_at(store: &mut EntityStore, p: Position) -> (e: Entity)
    requires
        old(store).wf(),
    ensures
        final(store).wf(),
        e.index == old(store)@.len(),
        final(store)@ == old(store)@.push(Some(spawned_body(Kind::Star, p))),
{
    let index = store.len();
    let _ = store.create(Body::star(p));
    Entity { index }
}

/// Draws a point of the field at random: the point that two draws select.
fn draw_point(bounds: &FieldBounds) -> (p: Position)
    requires
        bounds.wf(),
    ensures
        exists|draw_x: u32, draw_y: u32|
            p == #[trigger] bounds.point_of(draw_x as int, draw_y as int),
        bounds.offers(p),
{
    let draw_x = random_u32();
    let draw_y = random_u32();
    bounds.point_at(draw_x, draw_y)
}

/// Spawns `n` enemies at points of the field drawn at random.
pub fn spawn_enemies(store: &mut EntityStore, n: usize, bounds: &FieldBounds)
    requires
        old(store).wf(),
        bounds.wf(),
    ensures
        final(store).wf(),
        grown_by(old(store)@, final(store)@, n as int, Kind::Enemy, *bounds),
{
    let mut i: usize = 0;
    while i < n
        invariant
            i <= n,
            store.wf(),
            bounds.wf(),
            grown_by(old(store)@, store@, i as int, Kind::Enemy, *bounds),
        decreases n - i,
    {
        let p = draw_point(bounds);
        spawn_enemy_at(store, p);
        i += 1;
    }
}

/// Spawns `n` stars at points of the field drawn at random.
pub fn spawn_stars(store: &mut EntityStore, n: usize, bounds: &FieldBounds)
    requires
        old(store).wf(),
        bounds.wf(),
    ensures
        final(store).wf(),
        grown_by(old(store)@, final(store)@, n as int, Kind::Star, *bounds),
{
    let mut i: usize = 0;
    while i < n
        invariant
            i <= n,
            store.wf(),
            bounds.wf(),
            grown_by(old(store)@, store@, i as int, Kind::Star, *bounds),
        decreases n - i,
    {
        let p = draw_point(bounds);
        spawn_star_at(store, p);
        i += 1;
    }
}

/// Advances the timer of the enemies by the time of one frame.
pub fn tick_enemy_spawn_timer(enemy_spawn_timer: &mut EnemySpawnTimer, delta: u64)
    ensures
        final(enemy_spawn_timer).timer.period_of() == old(enemy_spawn_timer).timer.period_of(),
        final(enemy_spawn_timer).timer.elapsed_of() == ticked_elapsed(
            old(enemy_spawn_timer).timer.period_of(),
            old(enemy_spawn_timer).timer.elapsed_of(),
            delta as int,
        ),
        final(enemy_spawn_timer).timer.is_finished() == ticked_finished(
            old(enemy_spawn_timer).timer.period_of(),
            old(enemy_spawn_timer).timer.elapsed_of(),
            delta as int,
        ),
        final(enemy_spawn_timer).timer.wf(),
{
    enemy_spawn_timer.timer.tick(delta);
}

/// Advances the timer of the stars by the time of one frame.
pub fn tick_star_spawn_timer(star_spawn_timer: &mut StarSpawnTimer, delta: u64)
    ensures
        final(star_spawn_timer).timer.period_of() == old(star_spawn_timer).timer.period_of(),
        final(star_spawn_timer).timer.elapsed_of() == ticked_elapsed(
            old(star_spawn_timer).timer.period_of(),
            old(star_spawn_timer).timer.elapsed_of(),
            delta as int,
        ),
        final(star_spawn_timer).timer.is_finished() == ticked_finished(
            old(star_spawn_timer).timer.period_of(),
            old(star_spawn_timer).timer.elapsed_of(),
            delta as int,
        ),
        final(star_spawn_timer).timer.wf(),
{
    star_spawn_timer.timer.tick(delta);
}

/// Spawns one enemy at a point drawn at random if the timer of the enemies
/// fired on its last tick, and nothing otherwise. However many periods the
/// tick spanned, one enemy spawns.
pub fn spawn_enemies_over_time(
    store: &mut EntityStore,
    bounds: &FieldBounds,
    enemy_spawn_timer: &EnemySpawnTimer,
)
    requires
        old(store).wf(),
        bounds.wf(),
    ensures
        final(store).wf(),
        grown_by(
            old(store)@,
            final(store)@,
            if enemy_spawn_timer.timer.is_finished() {
                1int
            } else {
                0int
            },
            Kind::Enemy,
            *bounds,
        ),
        !enemy_spawn_timer.timer.is_finished() ==> final(store)@ == old(store)@,
{
    if enemy_spawn_timer.timer.finished() {
        let p = draw_point(bounds);
        spawn_enemy_at(store, p);
    } else {
        assert(store@ =~= old(store)@);
    }
}

/// Spawns one star at a point drawn at random if the timer of the stars
/// fired on its last tick, and nothing otherwise. However many periods the
/// tick spanned, one star spawns.
pub fn spawn_stars_over_time(
    store: &mut EntityStore,
    bounds: &FieldBounds,
    star_spawn_timer: &StarSpawnTimer,
)
    requires
        old(store).wf(),
        bounds.wf(),
    ensures
        final(store).wf(),
        grown_by(
            old(store)@,
            final(store)@,
            if star_spawn_timer.timer.is_finished() {
                1int
            } else {
                0int
            },
            Kind::Star,
            *bounds,
        ),
        !star_spawn_timer.timer.is_finished() ==> final(store)@ == old(store)@,
{
    if star_spawn_timer.timer.finished() {
        let p = draw_point(bounds);
        spawn_star_at(store, p);
    } else {
        assert(store@ =~= old(store)@);
    }
}

/// A player that spawns on a field on which it fits lies wholly on the
/// field.
pub proof fn lemma_spawned_player_is_held(bounds: FieldBounds)
    requires
        bounds.wf(),
        bounds.fits(Kind::Player.radius_of()),
    ensures
        bounds.holds(
            spawned_body(Kind::Player, bounds.center_of()).position,
            Kind::Player.radius_of(),
        ),
{
    crate::field::lemma_center_is_held(bounds, Kind::Player.radius_of());
}

/// An enemy spawns with a unit heading, wherever it spawns.
pub proof fn lemma_spawned_enemy_heads_unit(p: Position)
    ensures
        spawned_body(Kind::Enemy, p).direction.is_unit(),
        spawned_body(Kind::Enemy, p).wf(),
{
    if p.x == 0 && p.y == 0 {
        assert(UNIT * UNIT + 0 * 0 == UNIT * UNIT);
    } else {
        crate::direction::lemma_unit_toward(p.x as int, p.y as int);
    }
}

} // verus!
