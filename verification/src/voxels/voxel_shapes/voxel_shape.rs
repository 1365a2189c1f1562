//! The eight shape variants by name, each in the default orientation.

use crate::voxels::voxel_shapes::VoxelShape;
use vstd::prelude::*;

verus! {

pub fn cube() -> (r: VoxelShape)
    ensures
        r.data == 0,
{
    VoxelShape { data: 0 }
}

pub fn stair() -> (r: VoxelShape)
    ensures
        r.data == 1,
{
    VoxelShape { data: 1 }
}

pub fn corner_stair() -> (r: VoxelShape)
    ensures
        r.data == 2,
{
    VoxelShape { data: 2 }
}

pub fn slab() -> (r: VoxelShape)
    ensures
        r.data == 3,
{
    VoxelShape { data: 3 }
}

pub fn inner_prism_junction() -> (r: VoxelShape)
    ensures
        r.data == 4,
{
    VoxelShape { data: 4 }
}

pub fn inner_corner_prism() -> (r: VoxelShape)
    ensures
        r.data == 5,
{
    VoxelShape { data: 5 }
}

pub fn outer_corner_prism() -> (r: VoxelShape)
    ensures
        r.data == 6,
{
    VoxelShape { data: 6 }
}

pub fn prism() -> (r: VoxelShape)
    ensures
        r.data == 7,
{
    VoxelShape { data: 7 }
}

} // verus!
