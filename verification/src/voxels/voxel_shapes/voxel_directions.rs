//! The six directions by name.

use crate::voxels::voxel_shapes::all_directions;
use crate::voxels::voxel_shapes::VoxelDirection;
use vstd::prelude::*;

verus! {

pub fn north() -> (r: VoxelDirection)
    ensures
        r.data == 0,
{
    VoxelDirection { data: 0 }
}

pub fn south() -> (r: VoxelDirection)
    ensures
        r.data == 1,
{
    VoxelDirection { data: 1 }
}

pub fn east() -> (r: VoxelDirection)
    ensures
        r.data == 2,
{
    VoxelDirection { data: 2 }
}

pub fn west() -> (r: VoxelDirection)
    ensures
        r.data == 3,
{
    VoxelDirection { data: 3 }
}

pub fn up() -> (r: VoxelDirection)
    ensures
        r.data == 4,
{
    VoxelDirection { data: 4 }
}

pub fn down() -> (r: VoxelDirection)
    ensures
        r.data == 5,
{
    VoxelDirection { data: 5 }
}

/// The six directions in index order.
pub fn all() -> (r: [VoxelDirection; 6])
    ensures
        r@ == all_directions(),
{
    let r = [north(), south(), east(), west(), up(), down()];
    assert(r@ =~= all_directions());
    r
}

} // verus!
