use bevy_xp::direction::{Direction, UNIT};
use bevy_xp::error::Error;
use bevy_xp::geometry::Position;
use bevy_xp::math::isqrt;

#[test]
fn integer_square_roots() {
    assert_eq!(isqrt(0), 0);
    assert_eq!(isqrt(1), 1);
    assert_eq!(isqrt(3), 1);
    assert_eq!(isqrt(4), 2);
    assert_eq!(isqrt(24), 4);
    assert_eq!(isqrt(25), 5);
    assert_eq!(isqrt(500_000_000_000), 707_106);
    assert_eq!(isqrt(u128::MAX), u64::MAX);
    assert_eq!(isqrt((u64::MAX as u128) * (u64::MAX as u128)), u64::MAX);
    assert_eq!(isqrt((u64::MAX as u128) * (u64::MAX as u128) - 1), u64::MAX - 1);
}

#[test]
fn normalize_a_three_four_five_vector() {
    assert_eq!(Direction::normalize(3, 4), Ok(Direction { x: 600_000, y: 800_000 }));
    assert_eq!(Direction::normalize(-3, 4), Ok(Direction { x: -600_000, y: 800_000 }));
    assert_eq!(Direction::normalize(3, -4), Ok(Direction { x: 600_000, y: -800_000 }));
    assert_eq!(Direction::normalize(-300, -400), Ok(Direction { x: -600_000, y: -800_000 }));
}

#[test]
fn normalize_along_an_axis() {
    assert_eq!(Direction::normalize(7, 0), Ok(Direction { x: UNIT, y: 0 }));
    assert_eq!(Direction::normalize(0, -7), Ok(Direction { x: 0, y: -UNIT }));
    assert_eq!(Direction::normalize(i32::MIN, 0), Ok(Direction { x: -UNIT, y: 0 }));
    assert_eq!(Direction::normalize(0, i32::MAX), Ok(Direction { x: 0, y: UNIT }));
}

#[test]
fn normalize_a_diagonal() {
    // 0.70710678 rounds up to the nearest millionth.
    assert_eq!(Direction::normalize(1, 1), Ok(Direction { x: 707_107, y: 707_107 }));
    assert_eq!(Direction::normalize(-1, 1), Ok(Direction { x: -707_107, y: 707_107 }));
    assert_eq!(
        Direction::normalize(i32::MAX, i32::MAX),
        Ok(Direction { x: 707_107, y: 707_107 })
    );
}

#[test]
fn normalize_refuses_the_zero_vector() {
    assert_eq!(Direction::normalize(0, 0), Err(Error::ZeroVector));
}

#[test]
fn normalized_vectors_are_unit() {
    let vectors = [
        (1, 0),
        (1, 1),
        (1, 2),
        (2, 1),
        (-5, 3),
        (123_456, -654_321),
        (i32::MAX, 1),
        (1, i32::MIN),
        (i32::MIN, i32::MIN),
        (400_000, 300_000),
        (799_999, 599_999),
    ];
    for (x, y) in vectors.iter() {
        let d = Direction::normalize(*x, *y).unwrap();
        assert!(d.unit(), "({}, {}) gave {:?}", x, y, d);
    }
}

#[test]
fn components_round_to_the_nearest_millionth() {
    // 1 / sqrt(5) = 0.4472135955 rounds up, 2 / sqrt(5) = 0.8944271910 rounds down.
    assert_eq!(Direction::normalize(1, 2), Ok(Direction { x: 447_214, y: 894_427 }));
    assert_eq!(Direction::normalize(-2, -1), Ok(Direction { x: -894_427, y: -447_214 }));
    // 1 / sqrt(10) = 0.3162277660 rounds up, 3 / sqrt(10) = 0.9486832981 rounds down.
    assert_eq!(Direction::normalize(1, 3), Ok(Direction { x: 316_228, y: 948_683 }));
    // A component just below half a millionth rounds to zero.
    assert_eq!(Direction::normalize(1, 2_000_001), Ok(Direction { x: 0, y: UNIT }));
    assert_eq!(Direction::normalize(1, 2_000_000), Ok(Direction { x: 0, y: UNIT }));
    // Just above half a millionth it rounds to one millionth.
    assert_eq!(Direction::normalize(1, 1_999_999), Ok(Direction { x: 1, y: UNIT }));
    assert_eq!(Direction::normalize(-1, 1_999_999), Ok(Direction { x: -1, y: UNIT }));
}

#[test]
fn normalized_lengths_are_one_within_a_millionth() {
    let vectors = [
        (1, 1),
        (1, 2),
        (3, 1),
        (-7, 5),
        (1, 2_000_000),
        (799_999, 599_999),
        (i32::MAX, i32::MIN),
        (i32::MAX, 1),
        (123_456_789, -987_654_321),
    ];
    for (x, y) in vectors.iter() {
        let d = Direction::normalize(*x, *y).unwrap();
        let length = ((d.x as f64) * (d.x as f64) + (d.y as f64) * (d.y as f64)).sqrt() / 1e6;
        assert!((length - 1.0).abs() <= 1e-6, "({}, {}) gave {:?}", x, y, d);
    }
}

#[test]
fn unit_test_of_directions() {
    assert!(Direction::east().unit());
    assert!(!Direction::zero().unit());
    assert!(Direction { x: 600_000, y: 800_000 }.unit());
    assert!(Direction { x: 600_000, y: 800_001 }.unit());
    assert!(!Direction { x: 600_000, y: 800_002 }.unit());
    assert!(!Direction { x: 600_000, y: 799_998 }.unit());
    assert!(Direction { x: 707_107, y: 707_107 }.unit());
    // Both components rounded down: the length misses 1 by more than a millionth.
    assert!(!Direction { x: 707_106, y: 707_106 }.unit());
    assert!(!Direction { x: 707_000, y: 707_000 }.unit());
    assert!(!Direction { x: i32::MIN, y: i32::MIN }.unit());
    // The ends of the range of lengths: 999_999 and 1_000_001 millionths.
    assert!(Direction { x: 999_999, y: 0 }.unit());
    assert!(!Direction { x: 999_998, y: 0 }.unit());
    assert!(!Direction { x: 999_998, y: 1_414 }.unit());
    assert!(Direction { x: 999_998, y: 1_415 }.unit());
    assert!(Direction { x: 0, y: -1_000_001 }.unit());
    assert!(!Direction { x: 1, y: -1_000_001 }.unit());
    assert!(!Direction { x: 0, y: 1_000_002 }.unit());
}

#[test]
fn reflection_negates_the_chosen_components() {
    let d = Direction { x: 600_000, y: -800_000 };
    assert_eq!(d.reflect(false, false), d);
    assert_eq!(d.reflect(true, false), Direction { x: -600_000, y: -800_000 });
    assert_eq!(d.reflect(false, true), Direction { x: 600_000, y: 800_000 });
    assert_eq!(d.reflect(true, true), Direction { x: -600_000, y: 800_000 });
    assert!(d.reflect(true, true).unit());
}

#[test]
fn advance_along_an_axis() {
    let p = Position { x: 100, y: 200 };
    // 200_000 units per second for a sixtieth of a second: 3_333.33 units.
    assert_eq!(
        p.advance(Direction { x: UNIT, y: 0 }, 200_000, 16_666_666),
        Position { x: 3_433, y: 200 }
    );
    assert_eq!(
        p.advance(Direction { x: -UNIT, y: 0 }, 200_000, 16_666_666),
        Position { x: -3_233, y: 200 }
    );
    // Half a second at 500_000 units per second.
    assert_eq!(
        p.advance(Direction { x: 0, y: UNIT }, 500_000, 500_000_000),
        Position { x: 100, y: 250_200 }
    );
}

#[test]
fn advance_on_a_diagonal() {
    let p = Position { x: 0, y: 0 };
    let d = Direction::normalize(1, -1).unwrap();
    // 707_107 millionths of 250_000 units: 176_776.75, rounded toward zero.
    assert_eq!(p.advance(d, 500_000, 500_000_000), Position { x: 176_776, y: -176_776 });
}

#[test]
fn advance_rounds_toward_zero() {
    let p = Position { x: 0, y: 0 };
    // One unit per second for 999_999_999 ns stays short of one unit.
    assert_eq!(
        p.advance(Direction { x: UNIT, y: -UNIT }, 1, 999_999_999),
        Position { x: 0, y: 0 }
    );
    assert_eq!(
        p.advance(Direction { x: UNIT, y: -UNIT }, 1, 1_000_000_000),
        Position { x: 1, y: -1 }
    );
}

#[test]
fn advance_without_time_or_speed_stays() {
    let p = Position { x: -5, y: 9 };
    assert_eq!(p.advance(Direction { x: UNIT, y: UNIT }, 500_000, 0), p);
    assert_eq!(p.advance(Direction { x: UNIT, y: UNIT }, 0, 1_000_000_000), p);
    assert_eq!(p.advance(Direction::zero(), 500_000, 1_000_000_000), p);
}

#[test]
fn advance_stops_at_the_end_of_the_range() {
    let p = Position { x: i32::MAX - 10, y: i32::MIN + 10 };
    let out = p.advance(Direction { x: UNIT, y: -UNIT }, u32::MAX, u64::MAX);
    assert_eq!(out, Position { x: i32::MAX, y: i32::MIN });
    let far = p.advance(Direction { x: i32::MIN, y: i32::MAX }, u32::MAX, u64::MAX);
    assert_eq!(far, Position { x: i32::MIN, y: i32::MAX });
}
