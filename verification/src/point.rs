//! Points of the three-dimensional integer lattice.

use vstd::prelude::*;

verus! {

/// A point with integer coordinates. Two points are equal when their
/// coordinates are.
#[derive(Clone, Copy, Debug, PartialEq, Eq, Hash, Structural)]
pub struct PointI32 {
    pub x: i32,
    pub y: i32,
    pub z: i32,
}

/// The product of a coordinate and a cell size, which always fits.
fn times(coordinate: i32, cell_size: i32) -> (product: i64)
    ensures
        product == coordinate * cell_size,
{
    assert(-0x4000_0000_0000_0000 <= coordinate * cell_size <= 0x4000_0000_0000_0000)
        by (nonlinear_arith)
        requires
            -0x8000_0000 <= coordinate <= 0x7fff_ffff,
            -0x8000_0000 <= cell_size <= 0x7fff_ffff,
    ;
    coordinate as i64 * cell_size as i64
}

impl PointI32 {
    /// The point with the given coordinates.
    pub fn new(x: i32, y: i32, z: i32) -> (point: PointI32)
        ensures
            point == (PointI32 { x, y, z }),
    {
        PointI32 { x, y, z }
    }

    /// Where the point lies in a world whose lattice cells are `cell_size`
    /// units wide: every coordinate is multiplied by the cell size.
    pub fn scaled(&self, cell_size: i32) -> (place: (i64, i64, i64))
        ensures
            place.0 == self.x * cell_size,
            place.1 == self.y * cell_size,
            place.2 == self.z * cell_size,
    {
        (times(self.x, cell_size), times(self.y, cell_size), times(self.z, cell_size))
    }

    /// The sum of the distances along the three axes.
    pub open spec fn manhattan_distance(self, other: PointI32) -> nat {
        vstd::math::abs(self.x - other.x) + vstd::math::abs(self.y - other.y) + vstd::math::abs(
            self.z - other.z,
        )
    }
}

} // verus!
