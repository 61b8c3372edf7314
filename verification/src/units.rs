//! Fixed-point positions and velocities, and the exact comparisons made on them.

use vstd::prelude::*;

verus! {

/// Fixed-point steps in one world unit.
pub const UNIT: i32 = 1000;

/// What a release of the drag multiplies the pull by.
pub const LAUNCH_SCALE: i64 = 15;

/// How fast gravity speeds a falling body up, in steps per second each second.
pub const GRAVITY: i64 = 980_000;

/// A world position, in fixed-point steps.
#[derive(Clone, Copy, Debug, PartialEq, Eq, Structural)]
pub struct Point {
    pub x: i32,
    pub y: i32,
}

/// A velocity, in fixed-point steps per second.
#[derive(Clone, Copy, Debug, PartialEq, Eq, Structural)]
pub struct Velocity {
    pub x: i64,
    pub y: i64,
}

/// Squared distance between two points.
pub open spec fn dist_sq(a: Point, b: Point) -> int {
    (a.x - b.x) * (a.x - b.x) + (a.y - b.y) * (a.y - b.y)
}

/// `a` lies no farther from `b` than `radius`, for a `radius` that is not negative.
pub open spec fn within(a: Point, b: Point, radius: int) -> bool {
    dist_sq(a, b) <= radius * radius
}

/// Squared magnitude of a velocity.
pub open spec fn speed_sq(v: Velocity) -> int {
    v.x * v.x + v.y * v.y
}

/// The magnitude of `v` is strictly above `limit`, for a `limit` that is not negative.
pub open spec fn faster_than(v: Velocity, limit: int) -> bool {
    speed_sq(v) > limit * limit
}

/// The pull from `release` back to `start`, scaled by [`LAUNCH_SCALE`].
pub open spec fn impulse(start: Point, release: Point) -> Velocity {
    Velocity {
        x: ((start.x - release.x) * LAUNCH_SCALE) as i64,
        y: ((start.y - release.y) * LAUNCH_SCALE) as i64,
    }
}

/// The scaled pull never leaves the range of a velocity component.
pub proof fn lemma_impulse_exact(start: Point, release: Point)
    ensures
        impulse(start, release).x == (start.x - release.x) * 15,
        impulse(start, release).y == (start.y - release.y) * 15,
{
}

fn square_of_gap(a: i32, b: i32) -> (sq: u128)
    ensures
        sq == (a - b) * (a - b),
        sq <= 0x1_0000_0000_0000_0000,
{
    let gap: i64 = a as i64 - b as i64;
    let size: u64 = if gap < 0 {
        (-gap) as u64
    } else {
        gap as u64
    };
    assert(size * size == (a - b) * (a - b)) by (nonlinear_arith)
        requires
            size == a - b || size == -(a - b),
    ;
    assert(size * size <= 0x1_0000_0000_0000_0000) by (nonlinear_arith)
        requires
            size <= 0x1_0000_0000,
    ;
    let wide: u128 = size as u128;
    wide * wide
}

fn square_of_component(c: i64) -> (sq: u128)
    ensures
        sq == c * c,
        sq <= 0x4000_0000_0000_0000_0000_0000_0000_0000,
{
    let size: u128 = if c < 0 {
        (-(c as i128)) as u128
    } else {
        c as u128
    };
    assert(size * size == c * c) by (nonlinear_arith)
        requires
            size == c || size == -c,
    ;
    assert(size * size <= 0x4000_0000_0000_0000_0000_0000_0000_0000) by (nonlinear_arith)
        requires
            size <= 0x8000_0000_0000_0000,
    ;
    size * size
}

impl Point {
    pub fn new(x: i32, y: i32) -> (p: Point)
        ensures
            p == (Point { x, y }),
    {
        Point { x, y }
    }

    /// Whether `self` lies no farther from `other` than `radius`.
    pub fn is_within(&self, other: Point, radius: u32) -> (near: bool)
        ensures
            near == within(*self, other, radius as int),
    {
        let dx: u128 = square_of_gap(self.x, other.x);
        let dy: u128 = square_of_gap(self.y, other.y);
        let r: u128 = radius as u128;
        assert(r * r <= 0x1_0000_0000_0000_0000) by (nonlinear_arith)
            requires
                r <= 0x1_0000_0000,
        ;
        dx + dy <= r * r
    }
}

impl Velocity {
    pub fn new(x: i64, y: i64) -> (v: Velocity)
        ensures
            v == (Velocity { x, y }),
    {
        Velocity { x, y }
    }

    /// Whether the magnitude of `self` is strictly above `limit`.
    pub fn is_faster_than(&self, limit: u32) -> (fast: bool)
        ensures
            fast == faster_than(*self, limit as int),
    {
        let sx: u128 = square_of_component(self.x);
        let sy: u128 = square_of_component(self.y);
        let l: u128 = limit as u128;
        assert(l * l <= 0x1_0000_0000_0000_0000) by (nonlinear_arith)
            requires
                l <= 0x1_0000_0000,
        ;
        sx + sy > l * l
    }
}

/// The velocity given to the projectile when a drag that began at `start` is
/// let go at `release`.
pub fn launch_impulse(start: Point, release: Point) -> (v: Velocity)
    ensures
        v == impulse(start, release),
        v.x == (start.x - release.x) * 15,
        v.y == (start.y - release.y) * 15,
{
    let dx: i64 = start.x as i64 - release.x as i64;
    let dy: i64 = start.y as i64 - release.y as i64;
    Velocity { x: dx * LAUNCH_SCALE, y: dy * LAUNCH_SCALE }
}

} // verus!
