//! Procedural voxel terrain: noise-driven column generation and a
//! face-culling mesh extractor over dense voxel grids.

pub mod chunk_mesh;
pub mod chunk_util;
