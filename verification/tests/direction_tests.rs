use glam::IVec3;
use voxel_terrain::voxels::voxel_shapes::voxel_directions;

#[test]
fn flip_test() {
    assert_eq!(voxel_directions::north().flip(), voxel_directions::south());
    assert_eq!(voxel_directions::south().flip(), voxel_directions::north());
    assert_eq!(voxel_directions::east().flip(), voxel_directions::west());
    assert_eq!(voxel_directions::west().flip(), voxel_directions::east());
    assert_eq!(voxel_directions::up().flip(), voxel_directions::down());
    assert_eq!(voxel_directions::down().flip(), voxel_directions::up());
}

#[test]
fn as_vec_test() {
    assert_eq!(voxel_directions::north().as_vec(), IVec3::Z);
    assert_eq!(voxel_directions::south().as_vec(), -IVec3::Z);
    assert_eq!(voxel_directions::east().as_vec(), IVec3::X);
    assert_eq!(voxel_directions::west().as_vec(), -IVec3::X);
    assert_eq!(voxel_directions::up().as_vec(), IVec3::Y);
    assert_eq!(voxel_directions::down().as_vec(), -IVec3::Y);
}
