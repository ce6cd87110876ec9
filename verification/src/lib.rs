//! Deterministic core of a programmable 2D space-combat simulator.
//!
//! The crate holds the discrete side of the game: the world's entity tables,
//! the radar query, the scenario state machines and the small pieces of
//! configuration that surround them. Coordinates are fixed-point integers so
//! that every decision is exact and reproducible.

pub mod collision;
pub mod overlay;
pub mod radar;
pub mod random;
pub mod sandbox;
pub mod scenario;
pub mod services;
pub mod session;
pub mod starter;
pub mod text;
pub mod vec2;
pub mod version;
pub mod world;
