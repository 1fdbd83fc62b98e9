//! Core simulation logic for an arcade shooter encounter: bounded axis
//! motion, projectile flight, health bookkeeping, the weapon fire/reload
//! state machine, direct and explosive damage resolution, and the swarm
//! descent loss condition.
//!
//! All quantities are integers: positions and radii are in world units,
//! speeds in units per second, and time in milliseconds, so every tick
//! computation is exact and fully specified.

pub mod arena;
pub mod color;
pub mod damage;
pub mod encounter;
pub mod enemy;
pub mod geom;
pub mod health;
pub mod motion;
pub mod player;
pub mod projectile;
pub mod rng;
pub mod transition;
pub mod trig;
pub mod weapon;

pub use color::ColorHex;
pub use encounter::EncounterState;
pub use enemy::Enemy;
pub use geom::EntitySize;
pub use geom::Vec2;
pub use health::Health;
pub use player::Player;
pub use projectile::Projectile;
pub use weapon::Weapon;
