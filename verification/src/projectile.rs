//! A shot in flight.

use vstd::prelude::*;
use crate::geometry::{Position2d, Vector2d};

verus! {

/// One projectile: where it is, how fast it moves, and the constant
/// acceleration it is under.
#[derive(Debug, Copy, Clone, PartialEq, Eq, Structural)]
pub struct Projectile {
    pub position: Position2d,
    pub velocity: Vector2d,
    pub acceleration: Vector2d,
}

} // verus!
