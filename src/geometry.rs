use vstd::prelude::*;

verus! {

/// A vector with integer components (millimetres, or thousandths for
/// directions).
#[derive(Clone, Copy, Debug, PartialEq, Eq, Structural)]
pub struct Vec3i {
    pub x: i64,
    pub y: i64,
    pub z: i64,
}

/// Largest magnitude of one component of a direction vector: a unit
/// direction is stored in thousandths.
pub const UNIT: i64 = 1000;

/// Largest magnitude of one component of a position.
pub const MAX_COORD: i64 = 1_000_000_000_000;

impl Vec3i {
    pub open spec fn is_direction(self) -> bool {
        -UNIT <= self.x <= UNIT && -UNIT <= self.y <= UNIT && -UNIT <= self.z <= UNIT
            && !(self.x == 0 && self.y == 0 && self.z == 0)
    }

    pub open spec fn is_position(self) -> bool {
        -MAX_COORD <= self.x <= MAX_COORD && -MAX_COORD <= self.y <= MAX_COORD
            && -MAX_COORD <= self.z <= MAX_COORD
    }

    pub fn new(x: i64, y: i64, z: i64) -> (r: Vec3i)
        ensures
            r == (Vec3i { x, y, z }),
    {
        Vec3i { x, y, z }
    }

    pub fn zero() -> (r: Vec3i)
        ensures
            r == (Vec3i { x: 0, y: 0, z: 0 }),
    {
        Vec3i { x: 0, y: 0, z: 0 }
    }

    /// Component-wise sum of two positions.
    pub fn add(&self, o: &Vec3i) -> (r: Vec3i)
        requires
            self.is_position(),
            o.is_position(),
        ensures
            r.x == self.x + o.x && r.y == self.y + o.y && r.z == self.z + o.z,
    {
        Vec3i { x: self.x + o.x, y: self.y + o.y, z: self.z + o.z }
    }
}

/// The direction `d` scaled by the magnitude `m`.
pub open spec fn scaled(d: Vec3i, m: int) -> (int, int, int) {
    (d.x * m, d.y * m, d.z * m)
}

} // verus!
