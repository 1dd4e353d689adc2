//! Core of a two-paddle, single-ball arcade match: ball kinematics,
//! paddle-swing collision resolution, scoring, win detection, and the timed
//! selection of an ambient music phase.
//!
//! All quantities are fixed-point integers counting hundredths of a world
//! unit (or of a second), so that every rule of the simulation can be stated
//! and proved exactly. An engine front end owns rendering, audio playback and
//! key polling; it hands this crate plain input flags and the elapsed time,
//! and reads the resulting state back.

pub mod audio;
pub mod ball;
pub mod bat;
pub mod consts;
pub mod frame;
pub mod state;
pub mod units;
