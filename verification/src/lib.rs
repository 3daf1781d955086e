//! A minimal 2D tile-world model: a generated grid of terrain tiles, a single
//! actor that moves one tile at a time under a collision rule, a camera that
//! decides which tiles are visible and where they land on screen, and a
//! renderer that emits only the draw commands a frame actually needs.

pub mod actor;
pub mod camera;
pub mod catalog;
pub mod direction;
pub mod game;
pub mod geom;
pub mod render;
mod rng;
pub mod world;
