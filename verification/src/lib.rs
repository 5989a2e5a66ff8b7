//! A small platformer simulation in fixed-point arithmetic: a body that walks,
//! jumps and falls on a platform, a fall timer that brings it back, a camera
//! that trails it, and a spawner of obstacles that move in straight lines.
//!
//! Every update is a total function of the state, the configuration, the keys
//! and the frame's length, and its contract states the new state exactly.
pub mod body;
pub mod camera;
pub mod config;
pub mod fall;
pub mod gravity;
pub mod movement;
pub mod spawner;
pub mod units;
pub mod vec3;
pub mod world;
