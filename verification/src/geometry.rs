//! Integer plane geometry: points, squared distances and radius tests.

use vstd::prelude::*;

verus! {

/// A position in whole world units.
#[derive(Clone, Copy, Debug, PartialEq, Eq, Structural)]
pub struct Point {
    pub x: i32,
    pub y: i32,
}

/// The nearest `i32` to `v`.
pub open spec fn clamp_i32(v: int) -> int {
    if v < i32::MIN {
        i32::MIN as int
    } else if v > i32::MAX {
        i32::MAX as int
    } else {
        v
    }
}

impl Point {
    /// Squared Euclidean distance between two points.
    pub open spec fn dist_sq(self, other: Point) -> int {
        (self.x - other.x) * (self.x - other.x) + (self.y - other.y) * (self.y - other.y)
    }

    /// `self` is at distance `radius` or less from `other`.
    pub open spec fn spec_within(self, other: Point, radius: u32) -> bool {
        self.dist_sq(other) <= radius * radius
    }

    /// `self` is strictly closer to `other` than `radius`.
    pub open spec fn spec_closer_than(self, other: Point, radius: u32) -> bool {
        self.dist_sq(other) < radius * radius
    }

    /// `self` moved by `(dx, dy)`, each coordinate held inside the `i32` range.
    pub open spec fn spec_offset(self, dx: i32, dy: i32) -> Point {
        Point { x: clamp_i32(self.x + dx) as i32, y: clamp_i32(self.y + dy) as i32 }
    }

    /// The point at `(x, y)`.
    pub fn new(x: i32, y: i32) -> (p: Point)
        ensures
            p == (Point { x, y }),
    {
        Point { x, y }
    }

    /// The squared distance to `other`; it needs no rounding.
    pub fn distance_squared(&self, other: &Point) -> (d: u128)
        ensures
            d == self.dist_sq(*other),
    {
        let dx: i128 = self.x as i128 - other.x as i128;
        let dy: i128 = self.y as i128 - other.y as i128;
        assert(0 <= dx * dx <= 0x1_0000_0000_0000_0000) by (nonlinear_arith)
            requires
                -0x1_0000_0000 <= dx <= 0x1_0000_0000,
        ;
        assert(0 <= dy * dy <= 0x1_0000_0000_0000_0000) by (nonlinear_arith)
            requires
                -0x1_0000_0000 <= dy <= 0x1_0000_0000,
        ;
        (dx * dx + dy * dy) as u128
    }

    /// Whether `other` is at distance `radius` or less.
    pub fn within(&self, other: &Point, radius: u32) -> (b: bool)
        ensures
            b == self.spec_within(*other, radius),
    {
        let r: u128 = radius as u128;
        assert(0 <= r * r <= 0x1_0000_0000_0000_0000) by (nonlinear_arith)
            requires
                0 <= r <= 0x1_0000_0000,
        ;
        self.distance_squared(other) <= r * r
    }

    /// Whether `other` is strictly closer than `radius`.
    pub fn closer_than(&self, other: &Point, radius: u32) -> (b: bool)
        ensures
            b == self.spec_closer_than(*other, radius),
    {
        let r: u128 = radius as u128;
        assert(0 <= r * r <= 0x1_0000_0000_0000_0000) by (nonlinear_arith)
            requires
                0 <= r <= 0x1_0000_0000,
        ;
        self.distance_squared(other) < r * r
    }

    /// The point moved by `(dx, dy)`, held inside the plane.
    pub fn offset(&self, dx: i32, dy: i32) -> (p: Point)
        ensures
            p == self.spec_offset(dx, dy),
    {
        Point { x: clamped_sum(self.x, dx), y: clamped_sum(self.y, dy) }
    }
}

fn clamped_sum(a: i32, b: i32) -> (r: i32)
    ensures
        r == clamp_i32(a + b),
{
    let wide: i64 = a as i64 + b as i64;
    if wide < i32::MIN as i64 {
        i32::MIN
    } else if wide > i32::MAX as i64 {
        i32::MAX
    } else {
        wide as i32
    }
}

} // verus!
