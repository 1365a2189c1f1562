//! The record kept for each voxel.

use crate::voxels::voxel_shapes::VoxelShape;
use vstd::prelude::*;

verus! {

/// The content id of air: no geometry, and nothing hidden behind it.
pub const AIR: u16 = 0;

/// One voxel: its shape byte, a state byte kept for variant data, and the id
/// of what it is made of.
#[derive(Clone, Copy, PartialEq, Eq, Structural, Debug)]
pub struct VoxelData {
    pub shape: VoxelShape,
    pub state: u8,
    pub id: u16,
}

impl VoxelData {
    /// The voxel holds nothing.
    pub open spec fn is_air(&self) -> bool {
        self.id == AIR
    }
}

/// The voxel that a fresh chunk is filled with: air, shaped as a cube.
pub open spec fn empty_voxel() -> VoxelData {
    VoxelData { shape: VoxelShape { data: 0 }, state: 0, id: 0 }
}

} // verus!
