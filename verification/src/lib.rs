//! A verified model of a small hop-and-shoot scene: a player cube on a
//! ground disc that can yaw in place, perform a half-sine hop, and fire
//! projectiles that fly outward and are culled at the edge of the floor.
//!
//! All quantities live on exact fixed-point grids (ticks for time,
//! millionths of a turn for angles, millionths of a world unit for
//! lengths), so every per-frame update is exact integer arithmetic and
//! carries a proved contract.

pub mod player;
pub mod projectile;
pub mod trig;
pub mod units;
pub mod world;
