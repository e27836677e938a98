//! Per-tick game logic of a small physics arena: proximity pickup of
//! collectibles, camera centring on the players, and keyboard-to-impulse
//! mapping, all on integer world coordinates.

pub mod geometry;
pub mod pickup;
pub mod camera;
pub mod controls;
pub mod world;
pub mod arena;
