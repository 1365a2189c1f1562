//! The voxel world: shapes, chunks, the generation pipeline, and the text
//! of the profiles.

pub mod biome_profile;
pub mod chunk_mesh;
pub mod chunk_store;
pub mod voxel_chunk;
pub mod voxel_data;
pub mod voxel_mesh;
pub mod voxel_registry;
pub mod voxel_scene;
pub mod voxel_shapes;
