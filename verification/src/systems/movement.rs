//! Movement and containment: the player follows the input, enemies follow
//! their heading and bounce off the edges of the field.

use vstd::prelude::*;
use crate::audio::{bounce_cue, is_bounce_cue, AudioCue};
use crate::components::{Body, Kind};
use crate::direction::{advanced, unit_toward, Direction};
use crate::field::{escapes, FieldBounds};
use crate::geometry::Position;
use crate::rng::random_ratio;
use crate::store::{has_player, player_handle, EntityStore, Slots};
use crate::{ENEMY_SPEED, PLAYER_SPEED};

verus! {

/// The state of the four direction keys.
#[derive(Clone, Copy, Debug, PartialEq, Eq, Structural)]
pub struct DirectionalInput {
    pub up: bool,
    pub down: bool,
    pub left: bool,
    pub right: bool,
}

/// What two opposite keys ask for along their axis: 1, -1, or 0 where
/// both or neither are pressed.
pub open spec fn axis(positive: bool, negative: bool) -> int {
    (if positive {
        1int
    } else {
        0int
    }) - (if negative {
        1int
    } else {
        0int
    })
}

/// The direction that the keys ask for: of unit length where they ask for
/// any, also on a diagonal, and zero where they ask for none.
pub open spec fn steering_of(input: DirectionalInput) -> Direction {
    let x = axis(input.right, input.left);
    let y = axis(input.up, input.down);
    if x == 0 && y == 0 {
        Direction { x: 0, y: 0 }
    } else {
        unit_toward(x, y)
    }
}

/// The body at another position.
pub open spec fn with_position(b: Body, p: Position) -> Body {
    Body { position: p, ..b }
}

/// The store after the player has moved as the keys ask for `nanos`
/// nanoseconds. Without a player nothing moves.
pub open spec fn player_moved(s: Slots, input: DirectionalInput, nanos: int) -> Slots {
    if has_player(s) {
        let h = player_handle(s);
        let b = s[h]->0;
        s.update(
            h,
            Some(with_position(b, advanced(b.position, steering_of(input), PLAYER_SPEED as int, nanos))),
        )
    } else {
        s
    }
}

/// The store after the player is brought back onto the field.
pub open spec fn player_confined(s: Slots, bounds: FieldBounds) -> Slots {
    if has_player(s) {
        let h = player_handle(s);
        let b = s[h]->0;
        s.update(h, Some(with_position(b, bounds.confined(b.position, Kind::Player.radius_of()))))
    } else {
        s
    }
}

/// A slot after the enemies have moved for `nanos` nanoseconds.
pub open spec fn moved_slot(slot: Option<Body>, nanos: int) -> Option<Body> {
    match slot {
        Some(b) => if b.kind == Kind::Enemy {
            Some(with_position(b, advanced(b.position, b.direction, ENEMY_SPEED as int, nanos)))
        } else {
            slot
        },
        None => None,
    }
}

/// The store after every enemy has moved along its heading.
pub open spec fn enemies_moved(s: Slots, nanos: int) -> Slots {
    Seq::new(s.len(), |h: int| moved_slot(s[h], nanos))
}

/// A slot after the enemies are brought back onto the field.
pub open spec fn confined_slot(slot: Option<Body>, bounds: FieldBounds) -> Option<Body> {
    match slot {
        Some(b) => if b.kind == Kind::Enemy {
            Some(with_position(b, bounds.confined(b.position, Kind::Enemy.radius_of())))
        } else {
            slot
        },
        None => None,
    }
}

/// The store after every enemy is brought back onto the field.
pub open spec fn enemies_confined(s: Slots, bounds: FieldBounds) -> Slots {
    Seq::new(s.len(), |h: int| confined_slot(s[h], bounds))
}

/// A slot at the start of a frame: an enemy has not been reflected yet.
pub open spec fn unmarked_slot(slot: Option<Body>) -> Option<Body> {
    match slot {
        Some(b) => Some(Body { bounced_x: false, bounced_y: false, ..b }),
        None => None,
    }
}

/// The store at the start of a frame.
pub open spec fn frame_begun(s: Slots) -> Slots {
    Seq::new(s.len(), |h: int| unmarked_slot(s[h]))
}

/// The first component of the heading is to be reflected: the body is an
/// enemy that has left the field over the left or the right edge and has
/// not been reflected on this axis in this frame.
pub open spec fn flips_x(b: Body, bounds: FieldBounds) -> bool {
    b.kind == Kind::Enemy && !b.bounced_x && escapes(
        b.position.x as int,
        Kind::Enemy.radius_of(),
        bounds.width as int,
    )
}

/// The second component of the heading is to be reflected.
pub open spec fn flips_y(b: Body, bounds: FieldBounds) -> bool {
    b.kind == Kind::Enemy && !b.bounced_y && escapes(
        b.position.y as int,
        Kind::Enemy.radius_of(),
        bounds.height as int,
    )
}

/// A slot after the reflection pass.
pub open spec fn reflected_slot(slot: Option<Body>, bounds: FieldBounds) -> Option<Body> {
    match slot {
        Some(b) => Some(
            Body {
                direction: b.direction.reflected(flips_x(b, bounds), flips_y(b, bounds)),
                bounced_x: b.bounced_x || flips_x(b, bounds),
                bounced_y: b.bounced_y || flips_y(b, bounds),
                ..b
            },
        ),
        None => None,
    }
}

/// The store after the reflection pass.
pub open spec fn enemies_reflected(s: Slots, bounds: FieldBounds) -> Slots {
    Seq::new(s.len(), |h: int| reflected_slot(s[h], bounds))
}

/// The reflection pass changes the heading of the entity in this slot.
pub open spec fn bounces(slot: Option<Body>, bounds: FieldBounds) -> bool {
    slot matches Some(b) && (flips_x(b, bounds) || flips_y(b, bounds))
}

/// The number of entities among the first `n` whose heading the reflection
/// pass changes.
pub open spec fn bounces_below(s: Slots, bounds: FieldBounds, n: int) -> nat
    decreases n,
{
    if n <= 0 {
        0
    } else {
        bounces_below(s, bounds, n - 1) + if bounces(s[n - 1], bounds) {
            1nat
        } else {
            0nat
        }
    }
}

/// The number of entities whose heading the reflection pass changes.
pub open spec fn bounce_count(s: Slots, bounds: FieldBounds) -> nat {
    bounces_below(s, bounds, s.len() as int)
}

/// One frame as an enemy sees it: its length in nanoseconds and the
/// bounds of the field during it.
#[derive(Clone, Copy, Debug, PartialEq, Eq, Structural)]
pub struct Frame {
    pub nanos: u64,
    pub bounds: FieldBounds,
}

/// An entity after one frame in which it moves and is reflected.
pub open spec fn after_frame(b: Body, frame: Frame) -> Body {
    reflected_slot(moved_slot(unmarked_slot(Some(b)), frame.nanos as int), frame.bounds)->0
}

/// An entity after a sequence of frames.
pub open spec fn after_frames(b: Body, frames: Seq<Frame>) -> Body
    decreases frames.len(),
{
    if frames.len() == 0 {
        b
    } else {
        after_frame(after_frames(b, frames.drop_last()), frames.last())
    }
}

/// An enemy that heads in a unit direction still does after any number of
/// frames of movement and reflection: no frame changes the length of its
/// heading.
pub proof fn lemma_heading_stays_unit(b: Body, frames: Seq<Frame>)
    requires
        b.kind == Kind::Enemy,
        b.direction.is_unit(),
    ensures
        after_frames(b, frames).kind == Kind::Enemy,
        after_frames(b, frames).direction.norm_sq() == b.direction.norm_sq(),
        after_frames(b, frames).direction.is_unit(),
    decreases frames.len(),
{
    if frames.len() > 0 {
        lemma_heading_stays_unit(b, frames.drop_last());
        let before = after_frames(b, frames.drop_last());
        let frame = frames.last();
        let moved = moved_slot(unmarked_slot(Some(before)), frame.nanos as int)->0;
        crate::direction::lemma_reflection_keeps_length(
            moved.direction,
            flips_x(moved, frame.bounds),
            flips_y(moved, frame.bounds),
        );
    }
}

/// On a field on which an enemy fits, every enemy lies wholly on the field
/// after the enemies are brought back onto it.
pub proof fn lemma_confined_enemies_are_held(s: Slots, bounds: FieldBounds, h: int)
    requires
        bounds.wf(),
        bounds.fits(Kind::Enemy.radius_of()),
        crate::store::has_kind(s, h, Kind::Enemy),
    ensures
        crate::store::has_kind(enemies_confined(s, bounds), h, Kind::Enemy),
        bounds.holds(enemies_confined(s, bounds)[h]->0.position, Kind::Enemy.radius_of()),
{
}

/// The direction that the keys ask for.
pub fn steering(input: &DirectionalInput) -> (d: Direction)
    ensures
        d == steering_of(*input),
{
    let x: i32 = (if input.right {
        1i32
    } else {
        0i32
    }) - (if input.left {
        1i32
    } else {
        0i32
    });
    let y: i32 = (if input.up {
        1i32
    } else {
        0i32
    }) - (if input.down {
        1i32
    } else {
        0i32
    });
    match Direction::normalize(x, y) {
        Ok(d) => d,
        Err(_) => Direction::zero(),
    }
}

/// Moves the player as the keys ask, at the speed of the player, for the
/// `nanos` nanoseconds of the frame. Without a player nothing happens.
pub fn player_movement(store: &mut EntityStore, input: &DirectionalInput, nanos: u64)
    requires
        old(store).wf(),
    ensures
        final(store).wf(),
        final(store)@ == player_moved(old(store)@, *input, nanos as int),
{
    match store.player() {
        Some(e) => {
            let b = store.slot(e.index).unwrap();
            let moved = Body { position: b.position.advance(steering(input), PLAYER_SPEED, nanos), ..b };
            store.put(e.index, moved);
        },
        None => {},
    }
}

/// Brings the player back onto the field: each coordinate into the
/// interval in which the disc of the player lies wholly on the field.
/// Without a player nothing happens.
pub fn confine_player_movement(store: &mut EntityStore, bounds: &FieldBounds)
    requires
        old(store).wf(),
        bounds.wf(),
    ensures
        final(store).wf(),
        final(store)@ == player_confined(old(store)@, *bounds),
        has_player(final(store)@) == has_player(old(store)@),
        has_player(old(store)@) && bounds.fits(Kind::Player.radius_of()) ==> bounds.holds(
            final(store)@[player_handle(final(store)@)]->0.position,
            Kind::Player.radius_of(),
        ),
{
    match store.player() {
        Some(e) => {
            let b = store.slot(e.index).unwrap();
            let kept = Body { position: bounds.confine(b.position, Kind::Player.radius()), ..b };
            store.put(e.index, kept);
            proof {
                assert(crate::store::has_kind(store@, e.index as int, Kind::Player));
            }
        },
        None => {
            assert forall|h: int| !crate::store::has_kind(store@, h, Kind::Player) by {}
        },
    }
}

/// Moves every enemy along its heading, at the speed of the enemies, for
/// the `nanos` nanoseconds of the frame.
pub fn enemy_movement(store: &mut EntityStore, nanos: u64)
    requires
        old(store).wf(),
    ensures
        final(store).wf(),
        final(store)@ == enemies_moved(old(store)@, nanos as int),
{
    let n = store.len();
    let mut i: usize = 0;
    while i < n
        invariant
            i <= n,
            n == store@.len(),
            store@.len() == old(store)@.len(),
            store.wf(),
            forall|h: int| 0 <= h < i ==> store@[h] == moved_slot(old(store)@[h], nanos as int),
            forall|h: int| i <= h < n ==> store@[h] == old(store)@[h],
        decreases n - i,
    {
        match store.slot(i) {
            Some(b) => {
                if b.kind == Kind::Enemy {
                    let moved = Body { position: b.position.advance(b.direction, ENEMY_SPEED, nanos), ..b };
                    store.put(i, moved);
                }
            },
            None => {},
        }
        i += 1;
    }
    assert(store@ =~= enemies_moved(old(store)@, nanos as int));
}

/// Brings every enemy back onto the field. The rules of a frame do not
/// need this pass: an enemy that has left the field is reflected and
/// comes back by itself.
pub fn confine_enemy_movement(store: &mut EntityStore, bounds: &FieldBounds)
    requires
        old(store).wf(),
        bounds.wf(),
    ensures
        final(store).wf(),
        final(store)@ == enemies_confined(old(store)@, *bounds),
{
    let n = store.len();
    let mut i: usize = 0;
    while i < n
        invariant
            i <= n,
            n == store@.len(),
            store@.len() == old(store)@.len(),
            store.wf(),
            bounds.wf(),
            forall|h: int| 0 <= h < i ==> store@[h] == confined_slot(old(store)@[h], *bounds),
            forall|h: int| i <= h < n ==> store@[h] == old(store)@[h],
        decreases n - i,
    {
        match store.slot(i) {
            Some(b) => {
                if b.kind == Kind::Enemy {
                    let kept = Body { position: bounds.confine(b.position, Kind::Enemy.radius()), ..b };
                    store.put(i, kept);
                }
            },
            None => {},
        }
        i += 1;
    }
    assert(store@ =~= enemies_confined(old(store)@, *bounds));
}

/// Starts a frame: no enemy has been reflected in it yet.
pub fn begin_frame(store: &mut EntityStore)
    requires
        old(store).wf(),
    ensures
        final(store).wf(),
        final(store)@ == frame_begun(old(store)@),
{
    let n = store.len();
    let mut i: usize = 0;
    while i < n
        invariant
            i <= n,
            n == store@.len(),
            store@.len() == old(store)@.len(),
            store.wf(),
            forall|h: int| 0 <= h < i ==> store@[h] == unmarked_slot(old(store)@[h]),
            forall|h: int| i <= h < n ==> store@[h] == old(store)@[h],
        decreases n - i,
    {
        match store.slot(i) {
            Some(b) => {
                let fresh = Body { bounced_x: false, bounced_y: false, ..b };
                store.put(i, fresh);
            },
            None => {},
        }
        i += 1;
    }
    assert(store@ =~= frame_begun(old(store)@));
}

/// The reflection pass. Of every enemy that has left the interval in which
/// its disc lies wholly on the field, the component of the heading along
/// that axis is negated, once per axis and frame. The enemy is not moved.
/// For every enemy whose heading changed, on one axis or on both, one of
/// the two sounds of a bounce is added to `cues`, chosen by the toss of a
/// fair coin.
pub fn update_enemy_direction(
    store: &mut EntityStore,
    bounds: &FieldBounds,
    cues: &mut Vec<AudioCue>,
)
    requires
        old(store).wf(),
    ensures
        final(store).wf(),
        final(store)@ == enemies_reflected(old(store)@, *bounds),
        final(cues)@.len() == old(cues)@.len() + bounce_count(old(store)@, *bounds),
        forall|k: int| 0 <= k < old(cues)@.len() ==> final(cues)@[k] == old(cues)@[k],
        forall|k: int| old(cues)@.len() <= k < final(cues)@.len() ==> is_bounce_cue(final(cues)@[k]),
{
    let n = store.len();
    let mut i: usize = 0;
    while i < n
        invariant
            i <= n,
            n == store@.len(),
            store@.len() == old(store)@.len(),
            store.wf(),
            forall|h: int| 0 <= h < i ==> store@[h] == reflected_slot(old(store)@[h], *bounds),
            forall|h: int| i <= h < n ==> store@[h] == old(store)@[h],
            cues@.len() == old(cues)@.len() + bounces_below(old(store)@, *bounds, i as int),
            forall|k: int| 0 <= k < old(cues)@.len() ==> cues@[k] == old(cues)@[k],
            forall|k: int| old(cues)@.len() <= k < cues@.len() ==> is_bounce_cue(cues@[k]),
        decreases n - i,
    {
        match store.slot(i) {
            Some(b) => {
                if b.kind == Kind::Enemy {
                    let flip_x = !b.bounced_x && bounds.escapes_x(b.position, Kind::Enemy.radius());
                    let flip_y = !b.bounced_y && bounds.escapes_y(b.position, Kind::Enemy.radius());
                    proof {
                        crate::direction::lemma_unit_components(b.direction);
                    }
                    let turned = Body {
                        direction: b.direction.reflect(flip_x, flip_y),
                        bounced_x: b.bounced_x || flip_x,
                        bounced_y: b.bounced_y || flip_y,
                        ..b
                    };
                    store.put(i, turned);
                    if flip_x || flip_y {
                        cues.push(bounce_cue(random_ratio(1, 2)));
                    }
                }
            },
            None => {},
        }
        i += 1;
    }
    assert(store@ =~= enemies_reflected(old(store)@, *bounds));
}

} // verus!
