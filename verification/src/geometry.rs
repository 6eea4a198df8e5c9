//! Points and displacements of the plane, as values that are carried but
//! never computed with.

use vstd::prelude::*;

verus! {

/// One real coordinate, held as the 64 bits of its IEEE 754 binary64
/// encoding.
///
/// The rules in this crate move coordinates from one snapshot to the next and
/// never do arithmetic on them, so the encoding stays opaque here. Two scalars
/// are equal when their encodings are equal bit for bit.
#[derive(Debug, Copy, Clone, PartialEq, Eq, Structural)]
pub struct Scalar {
    pub bits: u64,
}

/// A point of the plane, in world units.
#[derive(Debug, Copy, Clone, PartialEq, Eq, Structural)]
pub struct Position2d {
    pub x: Scalar,
    pub y: Scalar,
}

/// A displacement, velocity or acceleration in the plane.
#[derive(Debug, Copy, Clone, PartialEq, Eq, Structural)]
pub struct Vector2d {
    pub x: Scalar,
    pub y: Scalar,
}

/// The point with the given coordinates.
pub fn pos2(x: Scalar, y: Scalar) -> (p: Position2d)
    ensures
        p.x == x,
        p.y == y,
{
    Position2d { x, y }
}

/// The vector with the given components.
pub fn vec2(x: Scalar, y: Scalar) -> (v: Vector2d)
    ensures
        v.x == x,
        v.y == y,
{
    Vector2d { x, y }
}

} // verus!
