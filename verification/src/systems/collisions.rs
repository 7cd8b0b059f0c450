//! The collision detector: the player dies on an enemy and picks up stars.

use vstd::prelude::*;
use crate::audio::AudioCue;
use crate::components::{enemy_body, still_body, Body, Kind};
use crate::events::{EventSlot, GameOver};
use crate::direction::Direction;
use crate::geometry::{collides, lemma_collides_symmetric, overlap, Position};
use crate::resources::Score;
use crate::store::{
    count_kind, has_kind, has_player, player_handle, removed, Entity, EntityStore, Slots,
};

verus! {

/// The discs of two entities overlap.
pub open spec fn touching(a: Body, b: Body) -> bool {
    overlap(a.circle_of(), b.circle_of())
}

/// The entity with this handle is an enemy that overlaps the player.
pub open spec fn strikes(s: Slots, h: int) -> bool {
    has_player(s) && has_kind(s, h, Kind::Enemy) && touching(s[player_handle(s)]->0, s[h]->0)
}

/// Some enemy overlaps the player.
pub open spec fn player_struck(s: Slots) -> bool {
    exists|h: int| strikes(s, h)
}

/// The entity with this handle is a star that overlaps the player.
pub open spec fn picked_up(s: Slots, h: int) -> bool {
    has_player(s) && has_kind(s, h, Kind::Star) && touching(s[player_handle(s)]->0, s[h]->0)
}

/// A slot after the player has picked up every star that it overlaps.
pub open spec fn pickup_slot(s: Slots, h: int) -> Option<Body> {
    if picked_up(s, h) {
        None
    } else {
        s[h]
    }
}

/// The store after the player has picked up every star that it overlaps.
pub open spec fn after_pickups(s: Slots) -> Slots {
    Seq::new(s.len(), |h: int| pickup_slot(s, h))
}

/// The number of stars among the first `n` entities that overlap the
/// player.
pub open spec fn pickups_below(s: Slots, n: int) -> nat
    decreases n,
{
    if n <= 0 {
        0
    } else {
        pickups_below(s, n - 1) + if picked_up(s, n - 1) {
            1nat
        } else {
            0nat
        }
    }
}

/// The number of stars that overlap the player.
pub open spec fn pickup_count(s: Slots) -> nat {
    pickups_below(s, s.len() as int)
}

/// Counting further never counts less.
pub proof fn lemma_pickups_monotonic(s: Slots, m: int, n: int)
    requires
        m <= n,
    ensures
        pickups_below(s, m) <= pickups_below(s, n),
    decreases n - m,
{
    if m < n {
        lemma_pickups_monotonic(s, m, n - 1);
    }
}

/// The player picks up no more stars than the store has slots.
pub proof fn lemma_pickups_at_most_len(s: Slots, n: int)
    requires
        0 <= n,
    ensures
        pickups_below(s, n) <= n,
    decreases n,
{
    if n > 0 {
        lemma_pickups_at_most_len(s, n - 1);
    }
}

proof fn lemma_stars_left_below(s: Slots, n: int)
    requires
        0 <= n <= s.len(),
    ensures
        count_kind(after_pickups(s).take(n), Kind::Star) + pickups_below(s, n) == count_kind(
            s.take(n),
            Kind::Star,
        ),
    decreases n,
{
    if n > 0 {
        lemma_stars_left_below(s, n - 1);
        assert(s.take(n).drop_last() =~= s.take(n - 1));
        assert(after_pickups(s).take(n).drop_last() =~= after_pickups(s).take(n - 1));
        assert(has_kind(s.take(n), n - 1, Kind::Star) == has_kind(s, n - 1, Kind::Star));
        assert(has_kind(after_pickups(s).take(n), n - 1, Kind::Star) == (has_kind(
            s,
            n - 1,
            Kind::Star,
        ) && !picked_up(s, n - 1)));
    }
}

/// Every star that the player picks up leaves the store, and no other
/// star does.
pub proof fn lemma_pickups_remove_stars(s: Slots)
    ensures
        count_kind(after_pickups(s), Kind::Star) + pickup_count(s) == count_kind(s, Kind::Star),
{
    lemma_stars_left_below(s, s.len() as int);
    assert(s.take(s.len() as int) =~= s);
    assert(after_pickups(s).take(s.len() as int) =~= after_pickups(s));
}

/// Whether two entities touch does not depend on their order.
pub proof fn lemma_touching_symmetric(a: Body, b: Body)
    ensures
        touching(a, b) == touching(b, a),
{
    lemma_collides_symmetric(a.circle_of(), b.circle_of());
}

/// Whether two entities touch does not depend on which of them stands at
/// which of their two places.
pub proof fn lemma_touching_swaps(a: Body, b: Body)
    ensures
        touching(a, b) == touching(
            Body { position: b.position, ..a },
            Body { position: a.position, ..b },
        ),
{
    let p = a.position;
    let q = b.position;
    assert((p.x - q.x) * (p.x - q.x) == (q.x - p.x) * (q.x - p.x)) by (nonlinear_arith);
    assert((p.y - q.y) * (p.y - q.y) == (q.y - p.y) * (q.y - p.y)) by (nonlinear_arith);
}

/// A store that holds a player and a star and nothing else.
pub open spec fn player_and_star(player: Position, star: Position) -> Slots {
    seq![Some(still_body(Kind::Player, player)), Some(still_body(Kind::Star, star))]
}

/// A store that holds a player and an enemy and nothing else.
pub open spec fn player_and_enemy(player: Position, enemy: Position, heading: Direction) -> Slots {
    seq![Some(still_body(Kind::Player, player)), Some(enemy_body(enemy, heading))]
}

/// In a store whose first slot holds its only player, that slot is the
/// handle of the player.
proof fn lemma_player_in_front(s: Slots)
    requires
        has_kind(s, 0, Kind::Player),
        forall|h: int| has_kind(s, h, Kind::Player) ==> h == 0,
    ensures
        has_player(s),
        player_handle(s) == 0,
{
}

/// The pickup is symmetric: a player at `a` picks up a star at `b` exactly
/// when a player at `b` picks up a star at `a`, so the score rises alike
/// in both.
pub proof fn lemma_pickup_is_symmetric(a: Position, b: Position)
    ensures
        picked_up(player_and_star(a, b), 1) == picked_up(player_and_star(b, a), 1),
        pickup_count(player_and_star(a, b)) == pickup_count(player_and_star(b, a)),
        pickup_count(player_and_star(a, b)) == (if picked_up(player_and_star(a, b), 1) {
            1nat
        } else {
            0nat
        }),
{
    let one = player_and_star(a, b);
    let other = player_and_star(b, a);
    lemma_player_in_front(one);
    lemma_player_in_front(other);
    lemma_touching_swaps(still_body(Kind::Player, a), still_body(Kind::Star, b));
    reveal_with_fuel(pickups_below, 3);
    assert(!picked_up(one, 0) && !picked_up(other, 0));
}

/// The deadly contact is symmetric: a player at `a` dies on an enemy at
/// `b` exactly when a player at `b` dies on an enemy at `a`, whatever the
/// heading of the enemy.
pub proof fn lemma_strike_is_symmetric(a: Position, b: Position, heading: Direction)
    ensures
        player_struck(player_and_enemy(a, b, heading)) == player_struck(
            player_and_enemy(b, a, heading),
        ),
{
    let one = player_and_enemy(a, b, heading);
    let other = player_and_enemy(b, a, heading);
    lemma_player_in_front(one);
    lemma_player_in_front(other);
    lemma_touching_swaps(still_body(Kind::Player, a), enemy_body(b, heading));
    assert(strikes(one, 1) == strikes(other, 1));
    if player_struck(one) {
        let h = choose|h: int| strikes(one, h);
        assert(h == 1);
        assert(strikes(other, 1));
    }
    if player_struck(other) {
        let h = choose|h: int| strikes(other, h);
        assert(h == 1);
        assert(strikes(one, 1));
    }
}

/// Whether some enemy overlaps the player.
pub fn struck(store: &EntityStore) -> (out: bool)
    requires
        store.wf(),
    ensures
        out == player_struck(store@),
{
    match store.player() {
        Some(e) => {
            let player = store.slot(e.index).unwrap();
            let disc = player.circle();
            let n = store.len();
            let mut i: usize = 0;
            while i < n
                invariant
                    i <= n,
                    n == store@.len(),
                    has_player(store@),
                    disc == store@[player_handle(store@)]->0.circle_of(),
                    forall|h: int| 0 <= h < i ==> !strikes(store@, h),
                decreases n - i,
            {
                match store.slot(i) {
                    Some(b) => {
                        if b.kind == Kind::Enemy && collides(&disc, &b.circle()) {
                            assert(strikes(store@, i as int));
                            return true;
                        }
                    },
                    None => {},
                }
                i += 1;
            }
            false
        },
        None => false,
    }
}

/// The player dies where an enemy overlaps it: the player is removed, one
/// game-over event with the current score is raised and returned, and the
/// sound of the explosion is added to `cues`. However many enemies overlap
/// the player, this happens once. Without a player, or with no enemy on
/// it, nothing happens.
pub fn enemy_hit_player(
    store: &mut EntityStore,
    score: &Score,
    events: &mut EventSlot,
    cues: &mut Vec<AudioCue>,
) -> (raised: Option<GameOver>)
    requires
        old(store).wf(),
    ensures
        final(store).wf(),
        raised is Some <==> player_struck(old(store)@),
        raised matches Some(event) ==> {
            &&& event.score == score.value
            &&& final(store)@ == removed(old(store)@, player_handle(old(store)@))
            &&& !has_player(final(store)@)
            &&& final(events).pending == Some(event)
            &&& final(cues)@ == old(cues)@.push(AudioCue::Explosion)
        },
        raised is None ==> {
            &&& final(store)@ == old(store)@
            &&& *final(events) == *old(events)
            &&& final(cues)@ == old(cues)@
        },
{
    if !struck(store) {
        return None;
    }
    match store.player() {
        Some(e) => {
            store.remove(e);
            let event = GameOver { score: score.value };
            events.send(event);
            cues.push(AudioCue::Explosion);
            proof {
                assert forall|h: int| !has_kind(store@, h, Kind::Player) by {
                    if has_kind(store@, h, Kind::Player) {
                        assert(has_kind(old(store)@, h, Kind::Player));
                    }
                }
            }
            Some(event)
        },
        None => None,
    }
}

/// The player picks up every star that it overlaps: each of them is
/// removed, the score goes up by one for each, and the sound of a pickup
/// is added to `cues` for each. Returns the number of stars picked up.
/// Without a player nothing happens.
pub fn player_hit_star(store: &mut EntityStore, score: &mut Score, cues: &mut Vec<AudioCue>) -> (hits: u32)
    requires
        old(store).wf(),
        old(score).value + pickup_count(old(store)@) <= u32::MAX,
    ensures
        final(store).wf(),
        final(store)@ == after_pickups(old(store)@),
        hits == pickup_count(old(store)@),
        final(score).value == old(score).value + hits,
        final(cues)@ == old(cues)@ + Seq::new(hits as nat, |k: int| AudioCue::Pickup),
{
    let mut hits: u32 = 0;
    let n = store.len();
    match store.player() {
        Some(e) => {
            let player = store.slot(e.index).unwrap();
            let disc = player.circle();
            let mut i: usize = 0;
            while i < n
                invariant
                    i <= n,
                    n == store@.len(),
                    store@.len() == old(store)@.len(),
                    store.wf(),
                    has_player(old(store)@),
                    disc == old(store)@[player_handle(old(store)@)]->0.circle_of(),
                    old(score).value + pickup_count(old(store)@) <= u32::MAX,
                    forall|h: int| 0 <= h < i ==> store@[h] == pickup_slot(old(store)@, h),
                    forall|h: int| i <= h < n ==> store@[h] == old(store)@[h],
                    hits == pickups_below(old(store)@, i as int),
                    score.value == old(score).value + hits,
                    cues@ == old(cues)@ + Seq::new(hits as nat, |k: int| AudioCue::Pickup),
                decreases n - i,
            {
                proof {
                    lemma_pickups_monotonic(old(store)@, i + 1, n as int);
                }
                match store.slot(i) {
                    Some(b) => {
                        if b.kind == Kind::Star && collides(&disc, &b.circle()) {
                            assert(picked_up(old(store)@, i as int));
                            store.remove(Entity { index: i });
                            score.value = score.value + 1;
                            cues.push(AudioCue::Pickup);
                            hits = hits + 1;
                            assert(cues@ =~= old(cues)@ + Seq::new(
                                hits as nat,
                                |k: int| AudioCue::Pickup,
                            ));
                        }
                    },
                    None => {},
                }
                i += 1;
            }
            assert(store@ =~= after_pickups(old(store)@));
        },
        None => {
            proof {
                assert forall|h: int| !picked_up(store@, h) by {}
                assert(store@ =~= after_pickups(old(store)@));
                lemma_no_player_no_pickups(store@, n as int);
                assert(cues@ =~= old(cues)@ + Seq::new(0nat, |k: int| AudioCue::Pickup));
            }
        },
    }
    hits
}

proof fn lemma_no_player_no_pickups(s: Slots, n: int)
    requires
        !has_player(s),
    ensures
        pickups_below(s, n) == 0,
    decreases n,
{
    if n > 0 {
        lemma_no_player_no_pickups(s, n - 1);
    }
}

} // verus!
