//! Procedural voxel terrain: the shape and orientation codec, the face
//! occlusion table, the chunk store, and the gated pipeline that turns chunk
//! coordinates into face-culled meshes. Beside them stands what reads the
//! text of the profiles that voxels and biomes are authored in.

pub mod vectors;
pub mod voxels;
