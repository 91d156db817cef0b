use vstd::prelude::*;

verus! {

/// Coordinates per world unit.
pub const UNIT: i64 = 1000000;

/// Largest magnitude of a coordinate written into a path or an offset.
pub const COORD_LIMIT: i64 = 1099511627776;

/// A point or displacement in fixed-point integer coordinates.
#[derive(Clone, Copy, Debug, PartialEq, Eq, Structural)]
pub struct Vec3 {
    pub x: i64,
    pub y: i64,
    pub z: i64,
}

/// Component-wise sum of two mathematical vectors.
pub open spec fn add3(a: (int, int, int), b: (int, int, int)) -> (int, int, int) {
    (a.0 + b.0, a.1 + b.1, a.2 + b.2)
}

/// Whether every component of a mathematical vector lies within `limit`.
pub open spec fn within(a: (int, int, int), limit: int) -> bool {
    -limit <= a.0 <= limit && -limit <= a.1 <= limit && -limit <= a.2 <= limit
}

impl View for Vec3 {
    type V = (int, int, int);

    open spec fn view(&self) -> (int, int, int) {
        (self.x as int, self.y as int, self.z as int)
    }
}

impl Vec3 {
    /// The zero vector.
    pub fn zero() -> (r: Vec3)
        ensures
            r@ == (0int, 0int, 0int),
    {
        Vec3 { x: 0, y: 0, z: 0 }
    }

    pub fn new(x: i64, y: i64, z: i64) -> (r: Vec3)
        ensures
            r@ == (x as int, y as int, z as int),
    {
        Vec3 { x, y, z }
    }

    /// Whether every coordinate lies within `COORD_LIMIT`.
    pub open spec fn is_bounded(&self) -> bool {
        within(self@, COORD_LIMIT as int)
    }

    pub fn bounded(&self) -> (r: bool)
        ensures
            r == self.is_bounded(),
    {
        -COORD_LIMIT <= self.x && self.x <= COORD_LIMIT && -COORD_LIMIT <= self.y && self.y
            <= COORD_LIMIT && -COORD_LIMIT <= self.z && self.z <= COORD_LIMIT
    }

    /// Component-wise sum.
    pub fn add(&self, other: &Vec3) -> (r: Vec3)
        requires
            within(add3(self@, other@), i64::MAX as int),
        ensures
            r@ == add3(self@, other@),
    {
        Vec3 { x: self.x + other.x, y: self.y + other.y, z: self.z + other.z }
    }
}

} // verus!
