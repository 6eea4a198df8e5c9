//! Rules of a turn-based artillery duel in the plane.
//!
//! Tanks fire projectiles; a projectile that comes within the hit radius of a
//! tank costs that tank a fixed amount of health. This crate holds the world
//! snapshot and the rules that decide what a tick does to it. Coordinates are
//! real numbers that the rules never compute with: they are carried as opaque
//! encodings (see [`geometry::Scalar`]), and the caller, who owns the
//! numerics, tells the rules which projectile lies near which tank.

pub mod geometry;
pub mod projectile;
pub mod tank;
pub mod world;

pub use geometry::{pos2, vec2, Position2d, Scalar, Vector2d};
pub use projectile::Projectile;
pub use tank::{Tank, HIT_DAMAGE};
pub use world::World;
