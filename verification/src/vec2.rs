//! Fixed-point plane vectors.
//!
//! One world unit is a thousand sub-units; every coordinate, velocity and
//! offset in the crate is a whole number of sub-units, so that comparisons of
//! distances are exact.

use vstd::prelude::*;

verus! {

/// Sub-units per world unit.
pub const UNIT: i32 = 1000;

/// A point, an offset or a velocity in the plane, in sub-units.
#[derive(Clone, Copy, Debug, PartialEq, Eq, Structural)]
pub struct Vec2 {
    pub x: i32,
    pub y: i32,
}

/// Square of the Euclidean distance between two points.
pub open spec fn distance_squared(a: Vec2, b: Vec2) -> int {
    (a.x - b.x) * (a.x - b.x) + (a.y - b.y) * (a.y - b.y)
}

/// Square of the Euclidean length of a vector.
pub open spec fn length_squared(v: Vec2) -> int {
    v.x * v.x + v.y * v.y
}

/// The sum of two vectors, where both coordinates of it can be held.
pub open spec fn sum_fits(a: Vec2, b: Vec2) -> bool {
    &&& i32::MIN <= a.x + b.x <= i32::MAX
    &&& i32::MIN <= a.y + b.y <= i32::MAX
}

/// The square of a difference of two coordinates fits in 64 bits.
proof fn lemma_square_bound(d: int)
    requires
        -0x1_0000_0000 < d < 0x1_0000_0000,
    ensures
        0 <= d * d <= 0xFFFF_FFFF * 0xFFFF_FFFF,
{
    assert(0 <= d * d <= 0xFFFF_FFFF * 0xFFFF_FFFF) by (nonlinear_arith)
        requires
            -0x1_0000_0000 < d < 0x1_0000_0000,
    ;
}

impl Vec2 {
    /// The vector with these coordinates.
    pub fn new(x: i32, y: i32) -> (v: Vec2)
        ensures
            v.x == x,
            v.y == y,
    {
        Vec2 { x, y }
    }

    /// The origin, which is also the zero vector.
    pub fn zero() -> (v: Vec2)
        ensures
            v.x == 0,
            v.y == 0,
    {
        Vec2 { x: 0, y: 0 }
    }

    /// Square of the distance from this point to another.
    pub fn distance_squared_to(&self, other: &Vec2) -> (d: u128)
        ensures
            d == distance_squared(*self, *other),
    {
        let dx: i128 = self.x as i128 - other.x as i128;
        let dy: i128 = self.y as i128 - other.y as i128;
        proof {
            lemma_square_bound(dx as int);
            lemma_square_bound(dy as int);
        }
        let sx: i128 = dx * dx;
        let sy: i128 = dy * dy;
        (sx + sy) as u128
    }

    /// Square of the length of this vector.
    pub fn length_squared(&self) -> (d: u128)
        ensures
            d == length_squared(*self),
    {
        let origin = Vec2 { x: 0, y: 0 };
        self.distance_squared_to(&origin)
    }

    /// Whether this point lies less than `radius` sub-units from `center`.
    pub fn is_within(&self, center: &Vec2, radius: u32) -> (inside: bool)
        ensures
            inside == (distance_squared(*self, *center) < radius * radius),
    {
        let side: u128 = radius as u128;
        proof {
            lemma_square_bound(side as int);
        }
        let limit: u128 = side * side;
        self.distance_squared_to(center) < limit
    }

    /// Whether this vector is shorter than `limit` sub-units.
    pub fn is_shorter_than(&self, limit: u32) -> (shorter: bool)
        ensures
            shorter == (length_squared(*self) < limit * limit),
    {
        let origin = Vec2 { x: 0, y: 0 };
        self.is_within(&origin, limit)
    }

    /// The sum of this vector and another, or `None` where a coordinate of
    /// the sum cannot be held.
    pub fn checked_add(&self, other: &Vec2) -> (sum: Option<Vec2>)
        ensures
            sum.is_some() == sum_fits(*self, *other),
            sum matches Some(v) ==> v.x == self.x + other.x && v.y == self.y + other.y,
    {
        match (self.x.checked_add(other.x), self.y.checked_add(other.y)) {
            (Some(x), Some(y)) => Some(Vec2 { x, y }),
            _ => None,
        }
    }
}

} // verus!
