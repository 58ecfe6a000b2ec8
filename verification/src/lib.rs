//! The simulation core of Icarust, a small arcade shoot-'em-up: a ship that
//! turns, thrusts and fires, rocks that drift, shots that fly, and the tick
//! that moves them all, lets them collide, clears away the dead and begins
//! the next level.
//!
//! The simulation counts in integers, so that it runs the same on every
//! machine and can be reasoned about exactly:
//!
//! - lengths and positions in thousandths of a pixel,
//! - speeds in thousandths of a pixel per second,
//! - time in microseconds,
//! - angles in 1/65536 of a turn, counted clockwise from +Y, so that angles
//!   add up modulo a full turn,
//! - headings as vectors whose length 1 is written 1000.
//!
//! Pictures, sounds, the window and the keyboard belong to the front end.
//! It hands the library what it has read of them (the extent of a picture,
//! the identifier of a sound, a key) and plays and draws what a tick reports.

pub mod actors;
pub mod assets;
pub mod fixed;
pub mod game;
pub mod input;
pub mod physics;
pub mod trig;
pub mod util;
