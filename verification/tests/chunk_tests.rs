use glam::IVec3;
use glam::UVec3;
use voxel_terrain::voxels::chunk_store::ChunkStore;
use voxel_terrain::voxels::chunk_store::InitializationQueue;
use voxel_terrain::voxels::voxel_chunk::index_to_pos;
use voxel_terrain::voxels::voxel_chunk::pos_to_index;
use voxel_terrain::voxels::voxel_chunk::pos_to_index_inverse;
use voxel_terrain::voxels::voxel_chunk::Density;
use voxel_terrain::voxels::voxel_chunk::VoxelChunk;
use voxel_terrain::voxels::voxel_chunk::CHUNK_SIZE;
use voxel_terrain::voxels::voxel_chunk::CHUNK_VOLUME;
use voxel_terrain::voxels::voxel_chunk::DEEP_ID;
use voxel_terrain::voxels::voxel_chunk::SURFACE_ID;
use voxel_terrain::voxels::voxel_data::VoxelData;
use voxel_terrain::voxels::voxel_shapes::voxel_shape;

/// A density field, in the order of the samples, from a function of the
/// position within the chunk.
fn field(density: impl Fn(u32, u32, u32) -> Density) -> Vec<Density> {
    let mut samples = Vec::new();
    for z in 0..16 {
        for y in 0..16 {
            for x in 0..16 {
                samples.push(density(x, y, z));
            }
        }
    }
    samples
}

#[test]
fn indices_by_hand() {
    assert_eq!(CHUNK_SIZE, 16);
    assert_eq!(CHUNK_VOLUME, 4096);
    assert_eq!(pos_to_index(&UVec3::new(0, 0, 0)), 0);
    assert_eq!(pos_to_index(&UVec3::new(1, 2, 3)), 256 + 32 + 3);
    assert_eq!(pos_to_index(&UVec3::new(15, 15, 15)), 4095);
    assert_eq!(pos_to_index_inverse(&UVec3::new(1, 2, 3)), 3 * 256 + 32 + 1);
    assert_eq!(index_to_pos(291), UVec3::new(1, 2, 3));
    assert_eq!(index_to_pos(4095), UVec3::new(15, 15, 15));
}

#[test]
fn positions_and_indices_stand_one_to_one() {
    for index in 0..4096 {
        let pos = index_to_pos(index);
        assert!(pos.x < 16 && pos.y < 16 && pos.z < 16);
        assert_eq!(pos_to_index(&pos), index);
        let sample = pos_to_index_inverse(&pos);
        assert_eq!(pos_to_index_inverse(&index_to_pos(sample)), index);
    }
}

#[test]
fn new_chunk_is_air() {
    let chunk = VoxelChunk::new(IVec3::new(3, -2, 7));
    assert_eq!(chunk.position(), IVec3::new(3, -2, 7));
    assert!(chunk.is_empty());
    for index in 0..4096 {
        let voxel = chunk.voxel_at(&index_to_pos(index));
        assert_eq!(*voxel, VoxelData { shape: voxel_shape::cube(), state: 0, id: 0 });
    }
}

#[test]
fn chunk_of_air_samples_is_empty() {
    let chunk = VoxelChunk::from_densities(IVec3::ZERO, &field(|_, _, _| Density::Air));
    assert!(chunk.is_empty());
}

#[test]
fn one_solid_sample_makes_the_chunk_hold_something() {
    let samples = field(|x, y, z| if (x, y, z) == (15, 15, 15) { Density::Surface } else { Density::Air });
    let chunk = VoxelChunk::from_densities(IVec3::ZERO, &samples);
    assert!(!chunk.is_empty());
    assert_eq!(chunk.voxel_at(&UVec3::new(15, 15, 15)).id, SURFACE_ID);
    assert_eq!(chunk.voxel_at(&UVec3::new(15, 15, 14)).id, 0);
}

#[test]
fn samples_run_along_x_and_voxels_along_z() {
    let samples = field(|x, y, z| {
        if (x, y, z) == (1, 2, 3) {
            Density::Deep
        } else if x == 0 {
            Density::Surface
        } else {
            Density::Air
        }
    });
    assert_eq!(samples[3 * 256 + 2 * 16 + 1], Density::Deep);
    let chunk = VoxelChunk::from_densities(IVec3::new(0, 1, 0), &samples);
    for index in 0..4096 {
        let pos = index_to_pos(index);
        let voxel = chunk.voxel_at(&pos);
        let id = if (pos.x, pos.y, pos.z) == (1, 2, 3) {
            DEEP_ID
        } else if pos.x == 0 {
            SURFACE_ID
        } else {
            0
        };
        assert_eq!(*voxel, VoxelData { shape: voxel_shape::cube(), state: 0, id });
    }
    assert_eq!(SURFACE_ID, 1);
    assert_eq!(DEEP_ID, 2);
    assert_eq!(Density::Air.to_voxel().id, 0);
    assert_eq!(Density::Surface.to_voxel().id, 1);
    assert_eq!(Density::Deep.to_voxel().id, 2);
}

#[test]
fn scenespace_lookup() {
    let samples = field(|x, y, z| if (x, y, z) == (0, 15, 4) { Density::Deep } else { Density::Air });
    let chunk = VoxelChunk::from_densities(IVec3::new(-1, 2, 0), &samples);
    assert_eq!(chunk.scenespace_pos(), IVec3::new(-16, 32, 0));
    assert_eq!(chunk.voxel_scenespace_at(&IVec3::new(-16, 47, 4)).map(|v| v.id), Some(DEEP_ID));
    assert_eq!(chunk.voxel_scenespace_at(&IVec3::new(-1, 32, 15)).map(|v| v.id), Some(0));
    assert!(chunk.voxel_scenespace_at(&IVec3::new(-17, 47, 4)).is_none());
    assert!(chunk.voxel_scenespace_at(&IVec3::new(0, 47, 4)).is_none());
    assert!(chunk.voxel_scenespace_at(&IVec3::new(-16, 48, 4)).is_none());
    assert!(chunk.voxel_scenespace_at(&IVec3::new(-16, 31, 4)).is_none());
    assert!(chunk.voxel_scenespace_at(&IVec3::new(-16, 47, 16)).is_none());
    assert!(chunk.voxel_scenespace_at(&IVec3::new(-16, 47, -1)).is_none());
    // Far from the chunk, where the difference does not fit 32 bits.
    let far = VoxelChunk::new(IVec3::new(i32::MAX, i32::MIN, 0));
    assert!(far.voxel_scenespace_at(&IVec3::new(i32::MIN, i32::MAX, 0)).is_none());
}

#[test]
fn setting_a_shape_keeps_the_rest() {
    let samples = field(|_, y, _| if y < 8 { Density::Deep } else { Density::Air });
    let mut chunk = VoxelChunk::from_densities(IVec3::ZERO, &samples);
    chunk.set_voxel_shape(&UVec3::new(4, 7, 9), voxel_shape::slab());
    for index in 0..4096 {
        let pos = index_to_pos(index);
        let shape = if (pos.x, pos.y, pos.z) == (4, 7, 9) { voxel_shape::slab() } else { voxel_shape::cube() };
        let id = if pos.y < 8 { DEEP_ID } else { 0 };
        assert_eq!(*chunk.voxel_at(&pos), VoxelData { shape, state: 0, id });
    }
    assert!(!chunk.is_empty());
    assert_eq!(chunk.position(), IVec3::ZERO);
    let copy = chunk.clone();
    assert_eq!(copy.voxel_at(&UVec3::new(4, 7, 9)).shape, voxel_shape::slab());
    assert_eq!(copy.position(), chunk.position());
    assert_eq!(copy.is_empty(), chunk.is_empty());
}

#[test]
fn store_holds_what_was_inserted() {
    let mut store = ChunkStore::new();
    let here = IVec3::new(1, 2, 3);
    let there = IVec3::new(3, 2, 1);
    assert!(!store.contains_key(&here));
    assert!(store.get(&here).is_none());
    store.insert(VoxelChunk::from_densities(here, &field(|_, _, _| Density::Deep)));
    assert!(store.contains_key(&here));
    assert!(!store.contains_key(&there));
    assert!(store.get(&there).is_none());
    let chunk = store.get(&here).unwrap();
    assert_eq!(chunk.position(), here);
    assert!(!chunk.is_empty());
    assert_eq!(chunk.voxel_at(&UVec3::new(5, 5, 5)).id, DEEP_ID);
    // A second chunk under the same position takes the place of the first.
    store.insert(VoxelChunk::new(here));
    assert!(store.get(&here).unwrap().is_empty());
    store.insert(VoxelChunk::new(there));
    assert!(store.contains_key(&there));
    assert!(store.contains_key(&here));
}

#[test]
fn queue_tells_the_first_request_from_the_next() {
    let mut queue = InitializationQueue::new();
    let here = IVec3::new(0, -1, 0);
    assert!(!queue.contains(&here));
    assert!(queue.insert(here));
    assert!(queue.contains(&here));
    assert!(!queue.insert(here));
    assert!(queue.contains(&here));
    assert!(!queue.contains(&IVec3::new(0, 1, 0)));
    assert!(queue.insert(IVec3::new(0, 1, 0)));
}
