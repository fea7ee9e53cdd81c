//! A verified core for a 2D top-down space-combat simulation.
//!
//! The world advances on a fixed tick: instructions are routed to actors by
//! id, each actor updates its own physics and may emit events, collisions are
//! detected pairwise over immutable snapshots, and spawn/despawn policy keeps
//! the population bounded.  All world quantities are integers: positions,
//! velocities and sizes are measured in thousandths of a world unit
//! ("milli-units"), angles in thousandths of a degree ("milli-degrees").

pub mod actor;
pub mod actor_manager;
pub mod asteroid;
pub mod background;
pub mod bullet;
pub mod collision;
pub mod explosion;
pub mod fixed;
pub mod game;
pub mod hud;
pub mod kamikaze;
pub mod messages;
mod rng;
pub mod session;
pub mod spaceship;
pub mod spaceship_agent;
pub mod token;
pub mod trig;
