//! A chunked voxel world: coordinates, blocks and chunks, the loaded-chunk
//! store with its streaming decisions, terrain and tree rules, and the
//! face-culling mesh builder with ambient occlusion.
//!
//! Every executable function carries a contract over the mathematical model
//! of the data it touches, and Verus proves the body against it.

pub mod block;
pub mod chunk;
pub mod generator;
pub mod interaction;
pub mod inventory;
pub mod item;
pub mod level;
pub mod persistence;
pub mod physics;
pub mod position;
pub mod streaming;
pub mod voxel_mesh;
