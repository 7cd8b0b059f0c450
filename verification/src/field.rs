//! The rectangular play field: its bounds, the points drawn inside it, and
//! the interval in which a disc of a given radius lies wholly on the field.

use vstd::prelude::*;
use crate::error::Error;
use crate::geometry::Position;

verus! {

/// Width and height of the field, in units. The field spans `0..width` by
/// `0..height`.
#[derive(Clone, Copy, Debug, PartialEq, Eq, Structural)]
pub struct FieldBounds {
    pub width: i32,
    pub height: i32,
}

/// Where a coordinate ends up when it is kept in `radius..=extent - radius`.
/// A coordinate below the interval goes to its lower end, also where the
/// interval is empty.
pub open spec fn confined_coord(v: int, radius: int, extent: int) -> int {
    if v < radius {
        radius
    } else if v > extent - radius {
        extent - radius
    } else {
        v
    }
}

/// The coordinate lies outside `radius..=extent - radius`.
pub open spec fn escapes(v: int, radius: int, extent: int) -> bool {
    v < radius || v > extent - radius
}

/// The fraction `draw / 2^32` of `extent`, rounded down.
pub open spec fn scaled_draw(draw: int, extent: int) -> int {
    draw * extent / 0x1_0000_0000
}

fn scale_draw(draw: u32, extent: i32) -> (out: i32)
    requires
        0 <= extent,
    ensures
        out == scaled_draw(draw as int, extent as int),
        0 <= out <= extent,
        extent > 0 ==> out < extent,
{
    assert(0 <= draw * extent <= 0xffff_ffff * extent) by (nonlinear_arith)
        requires
            0 <= draw <= 0xffff_ffff,
            0 <= extent,
    ;
    let product: u64 = (draw as u64) * (extent as u64);
    (product / 0x1_0000_0000u64) as i32
}

fn confine_coord(v: i32, radius: i32, extent: i32) -> (out: i32)
    requires
        0 <= extent,
    ensures
        out == confined_coord(v as int, radius as int, extent as int),
{
    let upper: i64 = extent as i64 - radius as i64;
    if v < radius {
        radius
    } else if (v as i64) > upper {
        upper as i32
    } else {
        v
    }
}

fn coord_escapes(v: i32, radius: i32, extent: i32) -> (out: bool)
    ensures
        out == escapes(v as int, radius as int, extent as int),
{
    v < radius || (v as i64) > extent as i64 - radius as i64
}

impl FieldBounds {
    /// Neither side is negative.
    pub open spec fn wf(self) -> bool {
        0 <= self.width && 0 <= self.height
    }

    /// A disc of this radius fits on the field.
    pub open spec fn fits(self, radius: int) -> bool {
        0 <= radius && 2 * radius <= self.width && 2 * radius <= self.height
    }

    /// The point lies on the field.
    pub open spec fn contains(self, p: Position) -> bool {
        0 <= p.x < self.width && 0 <= p.y < self.height
    }

    /// The point can be drawn on the field: it lies on the field, or, on a
    /// field without area, has a coordinate 0 along each side of length 0.
    pub open spec fn offers(self, p: Position) -> bool {
        &&& 0 <= p.x <= self.width
        &&& 0 <= p.y <= self.height
        &&& self.width > 0 ==> p.x < self.width
        &&& self.height > 0 ==> p.y < self.height
    }

    /// A disc of this radius around the point lies wholly on the field:
    /// each coordinate is in `radius..=bound - radius`.
    pub open spec fn holds(self, p: Position, radius: int) -> bool {
        radius <= p.x <= self.width - radius && radius <= p.y <= self.height - radius
    }

    /// The centre of the field.
    pub open spec fn center_of(self) -> Position {
        Position { x: (self.width / 2) as i32, y: (self.height / 2) as i32 }
    }

    /// The point of the field that two draws select.
    pub open spec fn point_of(self, draw_x: int, draw_y: int) -> Position {
        Position {
            x: scaled_draw(draw_x, self.width as int) as i32,
            y: scaled_draw(draw_y, self.height as int) as i32,
        }
    }

    /// The point brought into the interval of a disc of this radius.
    pub open spec fn confined(self, p: Position, radius: int) -> Position {
        Position {
            x: confined_coord(p.x as int, radius, self.width as int) as i32,
            y: confined_coord(p.y as int, radius, self.height as int) as i32,
        }
    }

    /// A field of the given size. A negative side is refused.
    pub fn new(width: i32, height: i32) -> (out: Result<FieldBounds, Error>)
        ensures
            out is Err <==> (width < 0 || height < 0),
            out matches Err(e) ==> e == Error::NegativeBounds,
            out matches Ok(b) ==> b.width == width && b.height == height && b.wf(),
    {
        if width < 0 || height < 0 {
            Err(Error::NegativeBounds)
        } else {
            Ok(FieldBounds { width, height })
        }
    }

    /// The field of a window of the given size, where there is a window.
    pub fn of_window(window: Option<(i32, i32)>) -> (out: Result<FieldBounds, Error>)
        ensures
            out is Ok <==> (window matches Some(size) && size.0 >= 0 && size.1 >= 0),
            out matches Ok(b) ==> window matches Some(size) && b.width == size.0 && b.height
                == size.1 && b.wf(),
            out matches Err(e) ==> e == (if window is None {
                Error::NoField
            } else {
                Error::NegativeBounds
            }),
    {
        match window {
            None => Err(Error::NoField),
            Some((width, height)) => FieldBounds::new(width, height),
        }
    }

    /// The centre of the field.
    pub fn center(&self) -> (p: Position)
        requires
            self.wf(),
        ensures
            p == self.center_of(),
    {
        Position { x: self.width / 2, y: self.height / 2 }
    }

    /// The point of the field at the fractions `draw_x / 2^32` of its width
    /// and `draw_y / 2^32` of its height. On a field with no area the point
    /// has a coordinate 0 along each side of length 0.
    pub fn point_at(&self, draw_x: u32, draw_y: u32) -> (p: Position)
        requires
            self.wf(),
        ensures
            p == self.point_of(draw_x as int, draw_y as int),
            self.offers(p),
            self.width > 0 && self.height > 0 ==> self.contains(p),
    {
        Position { x: scale_draw(draw_x, self.width), y: scale_draw(draw_y, self.height) }
    }

    /// Brings a point into the interval of a disc of this radius, each
    /// coordinate by itself.
    pub fn confine(&self, p: Position, radius: i32) -> (out: Position)
        requires
            self.wf(),
        ensures
            out == self.confined(p, radius as int),
            self.fits(radius as int) ==> self.holds(out, radius as int),
            self.holds(p, radius as int) ==> out == p,
    {
        Position {
            x: confine_coord(p.x, radius, self.width),
            y: confine_coord(p.y, radius, self.height),
        }
    }

    /// Whether a disc of this radius around the point crosses the left or
    /// the right edge.
    pub fn escapes_x(&self, p: Position, radius: i32) -> (out: bool)
        ensures
            out == escapes(p.x as int, radius as int, self.width as int),
    {
        coord_escapes(p.x, radius, self.width)
    }

    /// Whether a disc of this radius around the point crosses the lower or
    /// the upper edge.
    pub fn escapes_y(&self, p: Position, radius: i32) -> (out: bool)
        ensures
            out == escapes(p.y as int, radius as int, self.height as int),
    {
        coord_escapes(p.y, radius, self.height)
    }
}

/// On a field on which a disc of this radius fits, the disc placed at the
/// centre lies wholly on the field.
pub proof fn lemma_center_is_held(bounds: FieldBounds, radius: int)
    requires
        bounds.wf(),
        bounds.fits(radius),
    ensures
        bounds.holds(bounds.center_of(), radius),
{
}

/// On a field on which a disc of this radius fits, confining a point a
/// second time changes nothing.
pub proof fn lemma_confine_idempotent(bounds: FieldBounds, p: Position, radius: int)
    requires
        bounds.wf(),
        bounds.fits(radius),
    ensures
        bounds.confined(bounds.confined(p, radius), radius) == bounds.confined(p, radius),
{
}

} // verus!
