//! The rules of a Space Invaders game, with the movement of the invader
//! formation at their centre.
//!
//! A formation moves in waves. A repeating timer decides when a wave may
//! start, a cyclic sequence of directions decides where it goes, and every
//! unit applies its step after a delay of its own, so that the grid ripples
//! instead of jumping. A new wave never starts while units of the previous
//! one are still waiting.
//!
//! [`formation::Formation`] holds the units and runs the [`scheduler`];
//! [`laws`] proves what holds of it over any number of frames. The other
//! modules hold the smaller rules of the game: kinds of invaders and levels,
//! the saucer, collisions, score and leaderboard.
//!
//! Time is counted in nanoseconds and positions in fixed-point layout units,
//! both as integers.

pub mod geometry;
pub mod direction;
pub mod error;
pub mod timer;
pub mod delay;
pub mod unit;
pub mod pool;
pub mod scheduler;
pub mod formation;
pub mod laws;
pub mod leaderboard;
pub mod projectile;
pub mod invader;
pub mod level;
pub mod game;
pub mod ufo;
pub mod collision;
