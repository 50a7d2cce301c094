//! Block attribute registry, palette compaction and the texture readiness
//! gate of a voxel world.

pub mod block;
pub mod geometry;
pub mod kind;
pub mod name_map;
pub mod palette;
pub mod textures;
pub mod world;
