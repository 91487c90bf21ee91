//! Simulation core of a top-down arcade shooter: a ship in a toroidal arena,
//! asteroids that split when shot, lasers with a limited life, and the
//! layered application / game phase machine.
//!
//! Units: time is counted in milliseconds, positions in arena units,
//! velocities in arena units per second, and angles, angular velocities
//! and scales in thousandths.
pub mod timer;
pub mod arena;
pub mod asteroid;
mod random;
pub mod state;
pub mod explosion;
pub mod input;
pub mod player_ship;
pub mod laser;
pub mod hud;
pub mod menu;
pub mod world;
pub mod tick;
