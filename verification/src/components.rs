//! What an entity is made of: its kind, where it is, and for an enemy where
//! it is heading.

use vstd::prelude::*;
use crate::direction::Direction;
use crate::geometry::{Circle, Position};
use crate::{ENEMY_SIZE, PLAYER_SIZE, STAR_SIZE};

verus! {

/// The kinds of entities.
#[derive(Clone, Copy, Debug, PartialEq, Eq, Structural)]
pub enum Kind {
    /// The ball that the player steers.
    Player,
    /// The anchor of the camera.
    Camera,
    /// A ball that kills the player on contact.
    Enemy,
    /// A star that the player picks up.
    Star,
}

impl Kind {
    /// The fixed radius of every entity of a kind, in units. A camera has
    /// no extent.
    pub open spec fn radius_of(self) -> int {
        match self {
            Kind::Player => PLAYER_SIZE / 2,
            Kind::Camera => 0,
            Kind::Enemy => ENEMY_SIZE / 2,
            Kind::Star => STAR_SIZE / 2,
        }
    }

    /// The fixed radius of every entity of this kind.
    pub fn radius(&self) -> (r: i32)
        ensures
            r == self.radius_of(),
            0 <= r,
    {
        match self {
            Kind::Player => PLAYER_SIZE / 2,
            Kind::Camera => 0,
            Kind::Enemy => ENEMY_SIZE / 2,
            Kind::Star => STAR_SIZE / 2,
        }
    }
}

/// The data of one entity.
#[derive(Clone, Copy, Debug, PartialEq, Eq, Structural)]
pub struct Body {
    pub kind: Kind,
    pub position: Position,
    /// Where an enemy is heading. Zero for every other kind.
    pub direction: Direction,
    /// Whether the first component of an enemy's direction was reflected
    /// in the current frame.
    pub bounced_x: bool,
    /// Whether the second component of an enemy's direction was reflected
    /// in the current frame.
    pub bounced_y: bool,
}

/// An entity of a kind without a heading at a position.
pub open spec fn still_body(kind: Kind, position: Position) -> Body {
    Body { kind, position, direction: Direction { x: 0, y: 0 }, bounced_x: false, bounced_y: false }
}

/// An enemy at a position with a heading, not yet reflected in this frame.
pub open spec fn enemy_body(position: Position, direction: Direction) -> Body {
    Body { kind: Kind::Enemy, position, direction, bounced_x: false, bounced_y: false }
}

impl Body {
    /// An enemy heads in a unit direction. Every other kind has neither a
    /// heading nor reflection marks.
    pub open spec fn wf(self) -> bool {
        if self.kind == Kind::Enemy {
            self.direction.is_unit()
        } else {
            self.direction == (Direction { x: 0, y: 0 }) && !self.bounced_x && !self.bounced_y
        }
    }

    /// The disc that the entity occupies.
    pub open spec fn circle_of(self) -> Circle {
        Circle { center: self.position, radius: self.kind.radius_of() as u32 }
    }

    /// A player at a position.
    pub fn player(position: Position) -> (b: Body)
        ensures
            b == still_body(Kind::Player, position),
            b.wf(),
    {
        Body {
            kind: Kind::Player,
            position,
            direction: Direction::zero(),
            bounced_x: false,
            bounced_y: false,
        }
    }

    /// A camera anchor at a position.
    pub fn camera(position: Position) -> (b: Body)
        ensures
            b == still_body(Kind::Camera, position),
            b.wf(),
    {
        Body {
            kind: Kind::Camera,
            position,
            direction: Direction::zero(),
            bounced_x: false,
            bounced_y: false,
        }
    }

    /// A star at a position.
    pub fn star(position: Position) -> (b: Body)
        ensures
            b == still_body(Kind::Star, position),
            b.wf(),
    {
        Body {
            kind: Kind::Star,
            position,
            direction: Direction::zero(),
            bounced_x: false,
            bounced_y: false,
        }
    }

    /// An enemy at a position that heads in a unit direction.
    pub fn enemy(position: Position, direction: Direction) -> (b: Body)
        requires
            direction.is_unit(),
        ensures
            b == enemy_body(position, direction),
            b.wf(),
    {
        Body { kind: Kind::Enemy, position, direction, bounced_x: false, bounced_y: false }
    }

    /// Whether the data is well formed.
    pub fn valid(&self) -> (out: bool)
        ensures
            out == self.wf(),
    {
        match self.kind {
            Kind::Enemy => self.direction.unit(),
            _ => self.direction.x == 0 && self.direction.y == 0 && !self.bounced_x
                && !self.bounced_y,
        }
    }

    /// The disc that the entity occupies.
    pub fn circle(&self) -> (c: Circle)
        ensures
            c == self.circle_of(),
    {
        Circle { center: self.position, radius: self.kind.radius() as u32 }
    }
}

} // verus!
