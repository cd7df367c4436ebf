//! Obstacle-choreography core of a time-synchronized bullet-hell game.
//!
//! Self-animating hazards are driven forward on two clocks (a lifecycle
//! clock for warning/show/kill phases, an animation clock for motion), can
//! spawn further hazards through a per-tick accumulator, and can be collided
//! against a player capsule. All quantities are fixed-point integers; see
//! `fix` for the conventions.
pub mod accum;
pub mod angle;
pub mod arc;
pub mod args;
pub mod bomb;
pub mod center;
pub mod collide;
pub mod color;
pub mod ease;
pub mod fix;
pub mod gol;
pub mod laser;
pub mod laws;
pub mod obstacle;
pub mod pellet;
pub mod periodic;
pub mod player;
pub mod rect;
pub mod rng;
pub mod spawner;
pub mod spin;
pub mod vec2;
