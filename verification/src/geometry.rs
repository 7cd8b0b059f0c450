//! Points, circles and the strict circle-overlap test.

use vstd::prelude::*;

verus! {

/// A point of the field, in units.
#[derive(Clone, Copy, Debug, PartialEq, Eq, Structural)]
pub struct Position {
    pub x: i32,
    pub y: i32,
}

/// A disc: what an entity occupies on the field.
#[derive(Clone, Copy, Debug, PartialEq, Eq, Structural)]
pub struct Circle {
    pub center: Position,
    pub radius: u32,
}

/// Square of the Euclidean distance between two points.
pub open spec fn dist_sq(a: Position, b: Position) -> int {
    (a.x - b.x) * (a.x - b.x) + (a.y - b.y) * (a.y - b.y)
}

/// Two discs overlap when the distance between their centres is strictly
/// less than the sum of their radii. Both sides are non-negative, so the
/// comparison is made on the squares. Discs that only touch do not overlap.
pub open spec fn overlap(a: Circle, b: Circle) -> bool {
    dist_sq(a.center, b.center) < (a.radius + b.radius) * (a.radius + b.radius)
}

proof fn lemma_square_bound(v: int, m: int)
    by (nonlinear_arith)
    requires
        -m <= v <= m,
    ensures
        0 <= v * v <= m * m,
{
}

/// The circle-circle collision test.
pub fn collides(a: &Circle, b: &Circle) -> (hit: bool)
    ensures
        hit == overlap(*a, *b),
{
    let dx: i128 = a.center.x as i128 - b.center.x as i128;
    let dy: i128 = a.center.y as i128 - b.center.y as i128;
    let reach: i128 = a.radius as i128 + b.radius as i128;
    proof {
        lemma_square_bound(dx as int, 0x1_0000_0000);
        lemma_square_bound(dy as int, 0x1_0000_0000);
        lemma_square_bound(reach as int, 0x2_0000_0000);
    }
    dx * dx + dy * dy < reach * reach
}

/// The collision test does not depend on the order of its arguments.
pub proof fn lemma_collides_symmetric(a: Circle, b: Circle)
    ensures
        overlap(a, b) == overlap(b, a),
{
    assert((a.center.x - b.center.x) * (a.center.x - b.center.x) == (b.center.x - a.center.x) * (
    b.center.x - a.center.x)) by (nonlinear_arith);
    assert((a.center.y - b.center.y) * (a.center.y - b.center.y) == (b.center.y - a.center.y) * (
    b.center.y - a.center.y)) by (nonlinear_arith);
    assert((a.radius + b.radius) * (a.radius + b.radius) == (b.radius + a.radius) * (b.radius
        + a.radius));
}

} // verus!
