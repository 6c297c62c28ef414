//! Core simulation logic for a small 2D arcade game: a countdown timer
//! primitive, bomb and enemy lifecycle state machines, an area-blast damage
//! pipeline, rate-limited enemy spawners, and a wave director that escalates
//! difficulty round after round.
//!
//! All quantities are integers: durations in milliseconds, positions in
//! milli-units (one thousandth of a world unit), curve fractions in permille.
//! Rendering, audio, input and asset handling are left to the host program;
//! this crate owns only the rules of the game.

pub mod animation;
pub mod bombs;
pub mod ease;
pub mod enemy;
pub mod events;
pub mod geom;
pub mod health;
pub mod player;
pub mod rng;
pub mod spawner;
pub mod timer;
pub mod wave;
pub mod world;
