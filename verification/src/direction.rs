//! Unit direction vectors in fixed point, and how a position moves along one.

use vstd::prelude::*;
use crate::error::Error;
use crate::geometry::Position;
use crate::math::{
    floor_sqrt, isqrt, lemma_floor_sqrt, lemma_product_bound, lemma_root_bound,
    lemma_scaled_quotient, square,
};

verus! {

/// The value of a direction component that stands for 1.
pub const UNIT: i32 = 1_000_000;

/// Nanoseconds in one second.
pub const NANOS_PER_SECOND: u64 = 1_000_000_000;

/// A direction: each component is a signed count of millionths.
#[derive(Clone, Copy, Debug, PartialEq, Eq, Structural)]
pub struct Direction {
    pub x: i32,
    pub y: i32,
}

/// One component of the unit vector that points along a vector with this
/// component and with squared length `n`: the component over the length,
/// in millionths, rounded to the nearest millionth, a half away from zero.
///
/// Twice that ratio is the square root of `4 * UNIT * UNIT * a * a / n`.
/// With `k` the integer part of this root, the nearest integer to the
/// ratio is `(k + 1) / 2`.
pub open spec fn unit_component(a: int, n: int) -> int {
    let m = (floor_sqrt(4 * UNIT * UNIT * a * a / n) + 1) / 2;
    if a < 0 {
        -m
    } else {
        m
    }
}

/// The unit vector that points from the origin toward `(x, y)`.
pub open spec fn unit_toward(x: int, y: int) -> Direction {
    Direction {
        x: unit_component(x, x * x + y * y) as i32,
        y: unit_component(y, x * x + y * y) as i32,
    }
}

/// How far a component of `component` millionths carries in `nanos`
/// nanoseconds at `speed` units per second, rounded toward zero.
pub open spec fn displacement(component: int, speed: int, nanos: int) -> int {
    if component < 0 {
        -((-component) * speed * nanos / (UNIT * NANOS_PER_SECOND))
    } else {
        component * speed * nanos / (UNIT * NANOS_PER_SECOND)
    }
}

/// A coordinate stays within what a position can hold.
pub open spec fn saturate(v: int) -> int {
    if v < i32::MIN {
        i32::MIN as int
    } else if v > i32::MAX {
        i32::MAX as int
    } else {
        v
    }
}

/// The position reached from `p` along `d` after `nanos` nanoseconds at
/// `speed` units per second.
pub open spec fn advanced(p: Position, d: Direction, speed: int, nanos: int) -> Position {
    Position {
        x: saturate(p.x + displacement(d.x as int, speed, nanos)) as i32,
        y: saturate(p.y + displacement(d.y as int, speed, nanos)) as i32,
    }
}

fn component_toward(a: i32, n: u128) -> (c: i32)
    requires
        0 < n,
        a * a <= n,
    ensures
        c == unit_component(a as int, n as int),
        -UNIT <= c <= UNIT,
{
    let aa: u128 = square(a);
    proof {
        lemma_scaled_quotient(4_000_000_000_000, aa as int, n as int);
        lemma_product_bound(
            4_000_000_000_000,
            aa as int,
            1,
            4_000_000_000_000,
            0x4000_0000_0000_0000,
            1,
        );
        assert(4 * UNIT * UNIT == 4_000_000_000_000);
        assert(4 * UNIT * UNIT * a * a == 4_000_000_000_000 * aa) by (nonlinear_arith)
            requires
                aa == a * a,
                4 * UNIT * UNIT == 4_000_000_000_000,
        ;
    }
    let q: u128 = 4_000_000_000_000u128 * aa / n;
    let k: u64 = isqrt(q);
    proof {
        lemma_root_bound(k as int, q as int, 2_000_000);
    }
    let m: u64 = (k + 1) / 2;
    if a < 0 {
        -(m as i32)
    } else {
        m as i32
    }
}

impl Direction {
    /// Squared length, in squared millionths.
    pub open spec fn norm_sq(self) -> int {
        self.x * self.x + self.y * self.y
    }

    /// The length is 1 to within a millionth: the squared length lies
    /// between the squares of `UNIT - 1` and of `UNIT + 1`.
    pub open spec fn is_unit(self) -> bool {
        (UNIT - 1) * (UNIT - 1) <= self.norm_sq() <= (UNIT + 1) * (UNIT + 1)
    }

    /// The direction with the chosen components negated.
    pub open spec fn reflected(self, flip_x: bool, flip_y: bool) -> Direction {
        Direction {
            x: if flip_x {
                (-self.x) as i32
            } else {
                self.x
            },
            y: if flip_y {
                (-self.y) as i32
            } else {
                self.y
            },
        }
    }

    /// The direction of no movement.
    pub fn zero() -> (d: Direction)
        ensures
            d == (Direction { x: 0, y: 0 }),
    {
        Direction { x: 0, y: 0 }
    }

    /// The unit vector along the first axis: the default heading.
    pub fn east() -> (d: Direction)
        ensures
            d == (Direction { x: UNIT, y: 0 }),
            d.is_unit(),
    {
        assert(UNIT * UNIT + 0 * 0 == 1_000_000_000_000);
        assert((UNIT - 1) * (UNIT - 1) == 999_998_000_001);
        assert((UNIT + 1) * (UNIT + 1) == 1_000_002_000_001);
        Direction { x: UNIT, y: 0 }
    }

    /// The unit vector that points from the origin toward `(x, y)`. The
    /// vector of length zero has no direction and is refused.
    pub fn normalize(x: i32, y: i32) -> (out: Result<Direction, Error>)
        ensures
            out is Err <==> (x == 0 && y == 0),
            out matches Err(e) ==> e == Error::ZeroVector,
            out matches Ok(d) ==> d == unit_toward(x as int, y as int) && d.is_unit(),
    {
        if x == 0 && y == 0 {
            return Err(Error::ZeroVector);
        }
        let xx: u128 = square(x);
        let yy: u128 = square(y);
        proof {
            assert(x != 0 ==> x * x > 0) by (nonlinear_arith);
            assert(y != 0 ==> y * y > 0) by (nonlinear_arith);
        }
        let n: u128 = xx + yy;
        let d = Direction { x: component_toward(x, n), y: component_toward(y, n) };
        proof {
            lemma_unit_toward(x as int, y as int);
        }
        Ok(d)
    }

    /// Whether the direction is of unit length.
    pub fn unit(&self) -> (out: bool)
        ensures
            out == self.is_unit(),
    {
        let norm: u128 = square(self.x) + square(self.y);
        proof {
            assert((UNIT - 1) * (UNIT - 1) == 999_998_000_001);
            assert((UNIT + 1) * (UNIT + 1) == 1_000_002_000_001);
        }
        999_998_000_001 <= norm && norm <= 1_000_002_000_001
    }

    /// Billiard reflection: negates the chosen components. The least value
    /// of a component has no negative and is left out.
    pub fn reflect(self, flip_x: bool, flip_y: bool) -> (out: Direction)
        requires
            flip_x ==> self.x > i32::MIN,
            flip_y ==> self.y > i32::MIN,
        ensures
            out == self.reflected(flip_x, flip_y),
            out.norm_sq() == self.norm_sq(),
            self.is_unit() ==> out.is_unit(),
    {
        proof {
            assert((-self.x) * (-self.x) == self.x * self.x) by (nonlinear_arith);
            assert((-self.y) * (-self.y) == self.y * self.y) by (nonlinear_arith);
        }
        Direction {
            x: if flip_x {
                -self.x
            } else {
                self.x
            },
            y: if flip_y {
                -self.y
            } else {
                self.y
            },
        }
    }
}

/// No component of a unit direction exceeds `UNIT + 1` in magnitude.
pub proof fn lemma_unit_components(d: Direction)
    requires
        d.is_unit(),
    ensures
        -UNIT - 1 <= d.x <= UNIT + 1,
        -UNIT - 1 <= d.y <= UNIT + 1,
{
    assert((UNIT + 1) * (UNIT + 1) == 1_000_001 * 1_000_001);
    assert(d.x * d.x + d.y * d.y <= 1_000_001 * 1_000_001 ==> -1_000_001 <= d.x <= 1_000_001
        && -1_000_001 <= d.y <= 1_000_001) by (nonlinear_arith);
}

/// Reflection changes no length: a unit direction stays a unit direction
/// whichever components are negated.
pub proof fn lemma_reflection_keeps_length(d: Direction, flip_x: bool, flip_y: bool)
    requires
        d.is_unit(),
    ensures
        d.reflected(flip_x, flip_y).norm_sq() == d.norm_sq(),
        d.reflected(flip_x, flip_y).is_unit(),
{
    lemma_unit_components(d);
    assert((-d.x) * (-d.x) == d.x * d.x) by (nonlinear_arith);
    assert((-d.y) * (-d.y) == d.y * d.y) by (nonlinear_arith);
}

/// With `q` the quotient of `a` by `n` and `k` the integer square root of
/// `q`, `a` lies between `k * k * n` and `(k + 1) * (k + 1) * n`.
proof fn lemma_root_of_quotient(a: int, n: int, k: int)
    by (nonlinear_arith)
    requires
        0 <= a,
        0 < n,
        0 <= k,
        k * k <= a / n < (k + 1) * (k + 1),
    ensures
        k * k * n <= a < (k + 1) * (k + 1) * n,
{
    let q = a / n;
    assert(a == q * n + a % n);
    assert(0 <= a % n < n);
    assert(k * k * n <= q * n);
    assert((q + 1) * n <= (k + 1) * (k + 1) * n);
}

/// Two roots whose squares enclose the two parts of `u * n` enclose `u`.
proof fn lemma_roots_enclose(a: int, b: int, n: int, u: int, kx: int, ky: int)
    by (nonlinear_arith)
    requires
        0 < n,
        a + b == u * n,
        kx * kx * n <= a < (kx + 1) * (kx + 1) * n,
        ky * ky * n <= b < (ky + 1) * (ky + 1) * n,
    ensures
        kx * kx + ky * ky <= u < (kx + 1) * (kx + 1) + (ky + 1) * (ky + 1),
{
    assert((kx * kx + ky * ky) * n <= u * n);
    assert(u * n < ((kx + 1) * (kx + 1) + (ky + 1) * (ky + 1)) * n);
}

/// Halving two roots that enclose `4 * UNIT * UNIT`, each to the nearest,
/// gives two components whose squares add up to the square of `UNIT` to
/// within a millionth of the length.
proof fn lemma_halved_roots(kx: int, ky: int, x: int, y: int)
    requires
        0 <= kx,
        0 <= ky,
        kx * kx + ky * ky <= 4_000_000_000_000,
        4_000_000_000_000 < (kx + 1) * (kx + 1) + (ky + 1) * (ky + 1),
        x == (kx + 1) / 2,
        y == (ky + 1) / 2,
    ensures
        0 <= x <= 1_000_000,
        0 <= y <= 1_000_000,
        999_998_000_001 <= x * x + y * y <= 1_000_002_000_001,
{
    let sx = kx * kx;
    let sy = ky * ky;
    assert(sx >= 0 && sy >= 0) by (nonlinear_arith)
        requires
            sx == kx * kx,
            sy == ky * ky,
    ;
    lemma_root_bound(kx, sx, 2_000_000);
    lemma_root_bound(ky, sy, 2_000_000);
    assert((kx + 1) * (kx + 1) == sx + 2 * kx + 1) by (nonlinear_arith)
        requires
            sx == kx * kx,
    ;
    assert((ky + 1) * (ky + 1) == sy + 2 * ky + 1) by (nonlinear_arith)
        requires
            sy == ky * ky,
    ;
    // The two roots together stay below three units.
    assert(kx + ky < 3_000_000) by (nonlinear_arith)
        requires
            0 <= kx,
            0 <= ky,
            kx * kx + ky * ky <= 4_000_000_000_000,
    {
        assert((kx + ky) * (kx + ky) + (kx - ky) * (kx - ky) == 2 * (kx * kx + ky * ky));
        assert((kx - ky) * (kx - ky) >= 0);
        assert((kx + ky) * (kx + ky) <= 8_000_000_000_000);
        if kx + ky >= 3_000_000 {
            assert((kx + ky) * (kx + ky) >= 3_000_000 * 3_000_000);
        }
    }
    // Each component, doubled, is its root or one more.
    assert(kx <= 2 * x <= kx + 1);
    assert(ky <= 2 * y <= ky + 1);
    assert(sx <= 4 * (x * x) <= sx + 2 * kx + 1) by (nonlinear_arith)
        requires
            0 <= kx <= 2 * x <= kx + 1,
            sx == kx * kx,
    {
        assert((2 * x) * (2 * x) == 4 * (x * x));
        assert(kx * kx <= (2 * x) * (2 * x));
        assert((2 * x) * (2 * x) <= (kx + 1) * (kx + 1));
        assert((kx + 1) * (kx + 1) == kx * kx + 2 * kx + 1);
    }
    assert(sy <= 4 * (y * y) <= sy + 2 * ky + 1) by (nonlinear_arith)
        requires
            0 <= ky <= 2 * y <= ky + 1,
            sy == ky * ky,
    {
        assert((2 * y) * (2 * y) == 4 * (y * y));
        assert(ky * ky <= (2 * y) * (2 * y));
        assert((2 * y) * (2 * y) <= (ky + 1) * (ky + 1));
        assert((ky + 1) * (ky + 1) == ky * ky + 2 * ky + 1);
    }
}

/// Normalizing a vector other than zero gives a unit direction.
pub proof fn lemma_unit_toward(x: int, y: int)
    requires
        x != 0 || y != 0,
        i32::MIN <= x <= i32::MAX,
        i32::MIN <= y <= i32::MAX,
    ensures
        unit_toward(x, y).is_unit(),
        -UNIT <= unit_toward(x, y).x <= UNIT,
        -UNIT <= unit_toward(x, y).y <= UNIT,
{
    let n = x * x + y * y;
    let u: int = 4_000_000_000_000;
    assert(4 * UNIT * UNIT == u);
    assert((UNIT - 1) * (UNIT - 1) == 999_998_000_001);
    assert((UNIT + 1) * (UNIT + 1) == 1_000_002_000_001);
    assert(x * x >= 0 && y * y >= 0 && n > 0) by (nonlinear_arith)
        requires
            x != 0 || y != 0,
            n == x * x + y * y,
    ;
    let a = u * (x * x);
    let b = u * (y * y);
    assert(4 * UNIT * UNIT * x * x == a) by (nonlinear_arith)
        requires
            4 * UNIT * UNIT == u,
            a == u * (x * x),
    ;
    assert(4 * UNIT * UNIT * y * y == b) by (nonlinear_arith)
        requires
            4 * UNIT * UNIT == u,
            b == u * (y * y),
    ;
    assert(a >= 0 && b >= 0 && a + b == u * n) by (nonlinear_arith)
        requires
            a == u * (x * x),
            b == u * (y * y),
            n == x * x + y * y,
            x * x >= 0,
            y * y >= 0,
            u == 4_000_000_000_000,
    ;
    lemma_scaled_quotient(u, x * x, n);
    lemma_scaled_quotient(u, y * y, n);
    lemma_floor_sqrt(a / n);
    lemma_floor_sqrt(b / n);
    let kx = floor_sqrt(a / n);
    let ky = floor_sqrt(b / n);
    lemma_root_of_quotient(a, n, kx);
    lemma_root_of_quotient(b, n, ky);
    lemma_roots_enclose(a, b, n, u, kx, ky);
    let mx = (kx + 1) / 2;
    let my = (ky + 1) / 2;
    lemma_halved_roots(kx, ky, mx, my);
    let d = unit_toward(x, y);
    assert(d.x == mx || d.x == -mx);
    assert(d.y == my || d.y == -my);
    assert(d.x * d.x == mx * mx) by (nonlinear_arith)
        requires
            d.x == mx || d.x == -mx,
    ;
    assert(d.y * d.y == my * my) by (nonlinear_arith)
        requires
            d.y == my || d.y == -my,
    ;
}

fn carry(component: i32, speed: u32, nanos: u64) -> (out: i128)
    ensures
        out == displacement(component as int, speed as int, nanos as int),
        -0x4000_0000_0000_0000_0000_0000_0000_0000 <= out <= 0x4000_0000_0000_0000_0000_0000_0000_0000,
{
    let m: u128 = if component < 0 {
        (-(component as i64)) as u128
    } else {
        component as u128
    };
    proof {
        lemma_product_bound(m as int, speed as int, nanos as int, 0x8000_0000, 0xffff_ffff, 0xffff_ffff_ffff_ffff);
        assert(0x8000_0000int * 0xffff_ffffint * 0xffff_ffff_ffff_ffffint < 0x8000_0000_0000_0000_0000_0000_0000_0000int) by (nonlinear_arith);
        assert(UNIT * NANOS_PER_SECOND == 1_000_000_000_000_000);
    }
    let product: u128 = m * (speed as u128) * (nanos as u128);
    let whole: u128 = product / 1_000_000_000_000_000u128;
    if component < 0 {
        -(whole as i128)
    } else {
        whole as i128
    }
}

fn saturating(v: i128) -> (out: i32)
    ensures
        out == saturate(v as int),
{
    if v < i32::MIN as i128 {
        i32::MIN
    } else if v > i32::MAX as i128 {
        i32::MAX
    } else {
        v as i32
    }
}

impl Position {
    /// Moves along `d` for `nanos` nanoseconds at `speed` units per second.
    /// A coordinate that would leave the range of a position stops at its
    /// end.
    pub fn advance(self, d: Direction, speed: u32, nanos: u64) -> (out: Position)
        ensures
            out == advanced(self, d, speed as int, nanos as int),
    {
        let dx: i128 = carry(d.x, speed, nanos);
        let dy: i128 = carry(d.y, speed, nanos);
        Position { x: saturating(self.x as i128 + dx), y: saturating(self.y as i128 + dy) }
    }
}

} // verus!
