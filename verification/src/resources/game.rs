//! The size of the world and the walls around it.

use vstd::prelude::*;
use crate::math::{floor_div, Vec3, V3};

verus! {

/// The measures of the playing field, in fixed-point steps.
#[derive(Clone, Copy, Debug, PartialEq, Eq, Structural)]
pub struct WorldAttribute {
    /// Extent of the field along `x`.
    pub width: i32,
    /// Extent of the field along `z`.
    pub height: i32,
    pub wall_height: i32,
    pub wall_thickness: i32,
}

impl Default for WorldAttribute {
    fn default() -> (r: Self)
        ensures
            r == (WorldAttribute {
                width: 100_000,
                height: 100_000,
                wall_height: 25_000,
                wall_thickness: 5_000,
            }),
    {
        WorldAttribute {
            width: 100_000,
            height: 100_000,
            wall_height: 25_000,
            wall_thickness: 5_000,
        }
    }
}

/// One of the four walls around the field.
#[derive(Clone, Copy, Debug, PartialEq, Eq, Structural)]
pub enum WallSide {
    /// At the far end of `z`.
    Front,
    /// At the near end of `z`.
    Back,
    /// At the far end of `x`.
    Right,
    /// At the near end of `x`.
    Left,
}

/// Half of `v`, rounded down.
pub open spec fn half(v: int) -> int {
    v / 2
}

/// Halves a length.
pub fn halve(v: i32) -> (r: i32)
    ensures
        r as int == half(v as int),
{
    floor_div(v as i64, 2) as i32
}

impl WorldAttribute {
    /// Where the centre of a wall stands: on the middle of its side of the
    /// field, half the wall's height up.
    pub open spec fn wall_center(self, side: WallSide) -> V3 {
        match side {
            WallSide::Front => V3 { x: 0, y: half(self.wall_height as int), z: half(self.height as int) },
            WallSide::Back => V3 { x: 0, y: half(self.wall_height as int), z: -half(self.height as int) },
            WallSide::Right => V3 { x: half(self.width as int), y: half(self.wall_height as int), z: 0 },
            WallSide::Left => V3 { x: -half(self.width as int), y: half(self.wall_height as int), z: 0 },
        }
    }

    /// How large a wall is: as long as its side of the field, and as high
    /// and as thick as the world says.
    pub open spec fn wall_extent(self, side: WallSide) -> V3 {
        match side {
            WallSide::Front | WallSide::Back => V3 {
                x: self.width as int,
                y: self.wall_height as int,
                z: self.wall_thickness as int,
            },
            WallSide::Right | WallSide::Left => V3 {
                x: self.wall_thickness as int,
                y: self.wall_height as int,
                z: self.height as int,
            },
        }
    }

    /// The position of the wall on `side`.
    pub fn wall_position(&self, side: WallSide) -> (r: Vec3)
        ensures
            r@ == self.wall_center(side),
    {
        let y = halve(self.wall_height);
        match side {
            WallSide::Front => Vec3 { x: 0, y, z: halve(self.height) },
            WallSide::Back => Vec3 { x: 0, y, z: -halve(self.height) },
            WallSide::Right => Vec3 { x: halve(self.width), y, z: 0 },
            WallSide::Left => Vec3 { x: -halve(self.width), y, z: 0 },
        }
    }

    /// The size of the wall on `side`.
    pub fn wall_size(&self, side: WallSide) -> (r: Vec3)
        ensures
            r@ == self.wall_extent(side),
    {
        match side {
            WallSide::Front | WallSide::Back => Vec3 {
                x: self.width,
                y: self.wall_height,
                z: self.wall_thickness,
            },
            WallSide::Right | WallSide::Left => Vec3 {
                x: self.wall_thickness,
                y: self.wall_height,
                z: self.height,
            },
        }
    }
}

/// The half extents of a box of the given size.
pub fn half_extents_of(size: Vec3) -> (r: Vec3)
    ensures
        r@ == (V3 { x: half(size.x as int), y: half(size.y as int), z: half(size.z as int) }),
{
    Vec3 { x: halve(size.x), y: halve(size.y), z: halve(size.z) }
}

} // verus!
