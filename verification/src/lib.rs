//! Simulation and rendering core of a tile-grid action/RPG: a deterministic,
//! tick-driven engine that resolves actor movement against a scaled solidity
//! grid, drives sprite animation timing, and composites tiles, sprites and UI
//! overlays into a raw pixel buffer by alpha blending with clipping.

pub mod geom;
pub mod surface;
pub mod tiles;
pub mod sprite;
pub mod animations;
pub mod npc;
pub mod text;
pub mod director;
pub mod world;
