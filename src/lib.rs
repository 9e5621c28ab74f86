//! Procedural voxel islands: chunked terrain generation and per-face
//! visibility culling, with every step specified and proved.

pub mod voxel;
pub mod chunk;
pub mod terrain;
pub mod world;
