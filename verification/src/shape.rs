//! The entity model: one record for the player, the bullets and the
//! obstacles, and the bounding-box test that decides a collision.

use vstd::prelude::*;
use crate::units::{BULLET_SIZE, BULLET_SPEED};

verus! {

/// An axis-aligned rectangle, by its top left corner and its extent. A
/// rectangle is measured in halves of the unit that shapes are measured in,
/// so that the box of a shape of odd size has whole corners.
#[derive(Clone, Copy, Debug, PartialEq, Eq, Structural)]
pub struct Rect {
    pub x: i64,
    pub y: i64,
    pub w: i64,
    pub h: i64,
}

impl Rect {
    pub open spec fn left(self) -> int {
        self.x as int
    }

    pub open spec fn right(self) -> int {
        self.x + self.w
    }

    pub open spec fn top(self) -> int {
        self.y as int
    }

    pub open spec fn bottom(self) -> int {
        self.y + self.h
    }

    /// Two rectangles overlap when they share a point; touching edges count.
    pub open spec fn overlaps_spec(self, other: Rect) -> bool {
        &&& self.left() <= other.right()
        &&& self.right() >= other.left()
        &&& self.top() <= other.bottom()
        &&& self.bottom() >= other.top()
    }

    /// Whether the two rectangles overlap, touching edges included.
    pub fn overlaps(&self, other: &Rect) -> (r: bool)
        ensures
            r == self.overlaps_spec(*other),
    {
        let left: i128 = self.x as i128;
        let right: i128 = self.x as i128 + self.w as i128;
        let top: i128 = self.y as i128;
        let bottom: i128 = self.y as i128 + self.h as i128;
        let other_left: i128 = other.x as i128;
        let other_right: i128 = other.x as i128 + other.w as i128;
        let other_top: i128 = other.y as i128;
        let other_bottom: i128 = other.y as i128 + other.h as i128;
        left <= other_right && right >= other_left && top <= other_bottom && bottom >= other_top
    }
}

/// The player, a bullet or an obstacle.
#[derive(Clone, Copy, Debug, PartialEq, Eq, Structural)]
pub struct Shape {
    /// Edge length; for the player, its health.
    pub size: u32,
    /// Speed along the shape's direction of travel.
    pub speed: u32,
    /// Horizontal centre.
    pub x: i32,
    /// Vertical centre, growing downwards.
    pub y: i32,
    /// Set once a bullet has struck the shape.
    pub collided: bool,
}

impl Shape {
    /// The square of side `size` centred on the shape, in half units: it
    /// reaches `size` half units to each side of the doubled centre.
    pub open spec fn rect_spec(self) -> Rect {
        Rect {
            x: (2 * self.x - self.size) as i64,
            y: (2 * self.y - self.size) as i64,
            w: (2 * self.size) as i64,
            h: (2 * self.size) as i64,
        }
    }

    /// Two shapes collide when their bounding boxes overlap.
    pub open spec fn collides_with_spec(self, other: Shape) -> bool {
        self.rect_spec().overlaps_spec(other.rect_spec())
    }

    /// The bounding box of the shape.
    pub fn rect(&self) -> (r: Rect)
        ensures
            r == self.rect_spec(),
    {
        let reach: i64 = self.size as i64;
        Rect {
            x: 2 * (self.x as i64) - reach,
            y: 2 * (self.y as i64) - reach,
            w: 2 * reach,
            h: 2 * reach,
        }
    }

    /// Whether the bounding boxes of the two shapes overlap: along each
    /// axis the centres are no further apart than half the sum of the sizes.
    pub fn collides_with(&self, other: &Shape) -> (r: bool)
        ensures
            r == self.collides_with_spec(*other),
            r <==> 2 * apart(self.x as int, other.x as int) <= self.size + other.size && 2 * apart(
                self.y as int,
                other.y as int,
            ) <= self.size + other.size,
    {
        self.rect().overlaps(&other.rect())
    }

    /// A bullet leaving the point `(x, y)`.
    pub fn bullet(x: i32, y: i32) -> (r: Shape)
        ensures
            r == (Shape { size: BULLET_SIZE, speed: BULLET_SPEED, x, y, collided: false }),
    {
        Shape { size: BULLET_SIZE, speed: BULLET_SPEED, x, y, collided: false }
    }
}

/// The distance between two coordinates.
pub open spec fn apart(a: int, b: int) -> int {
    if a >= b {
        a - b
    } else {
        b - a
    }
}

/// Two shapes collide exactly when, along each axis, their centres are no
/// further apart than half the sum of their sizes: the squares centred on
/// them overlap or touch.
pub proof fn collision_is_overlap_of_centred_squares(a: Shape, b: Shape)
    ensures
        a.collides_with_spec(b) <==> 2 * apart(a.x as int, b.x as int) <= a.size + b.size && 2
            * apart(a.y as int, b.y as int) <= a.size + b.size,
{
}

/// Collision is symmetric: either shape may be asked.
pub proof fn collision_is_symmetric(a: Shape, b: Shape)
    ensures
        a.collides_with_spec(b) == b.collides_with_spec(a),
{
}

/// Every shape collides with itself.
pub proof fn collision_is_reflexive(a: Shape)
    ensures
        a.collides_with_spec(a),
{
}

} // verus!
