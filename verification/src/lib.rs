//! Core engine for a turn-based artillery duel: destructible terrain,
//! ballistic projectiles, a projectile catalog, per-player inventories,
//! and the turn/phase state machine that drives a match.

pub mod angle;
pub mod ballistics;
pub mod kinds;
pub mod messages;
pub mod player;
pub mod sim;
pub mod terrain;
pub mod trig;
pub mod world;
mod rng;

pub use kinds::BulletCount;
pub use kinds::BulletType;
