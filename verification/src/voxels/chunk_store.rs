//! The chunks of a scene by grid coordinate, and the set of coordinates that
//! have been asked for.
//!
//! Both are kept in the concurrent collections of `dashmap`. The library
//! holds each behind a private field and changes it only through `&mut`, so
//! that what a collection holds is a function of its value.

use crate::voxels::voxel_chunk::chunk_coordinate;
use crate::voxels::voxel_chunk::linear_index;
use crate::voxels::voxel_chunk::ChunkView;
use crate::voxels::voxel_chunk::VoxelChunk;
use crate::voxels::voxel_data::VoxelData;
use crate::voxels::voxel_shapes::direction_vector;
use ahash::RandomState;
use dashmap::DashMap;
use dashmap::DashSet;
use glam::IVec3;
use std::sync::Arc;
use vstd::prelude::*;

verus! {

/// The hasher of `ahash` that the chunk map is built with. Nothing is read
/// of it.
#[verifier::external_type_specification]
#[verifier::external_body]
pub struct ExRandomState(RandomState);

/// The map of `dashmap`. What it holds is known through
/// `chunk_map_contents` alone.
#[verifier::external_type_specification]
#[verifier::external_body]
#[verifier::reject_recursive_types(K)]
#[verifier::reject_recursive_types(V)]
#[verifier::reject_recursive_types(S)]
pub struct ExDashMap<K, V, S>(DashMap<K, V, S>);

/// The set of `dashmap`. What it holds is known through
/// `coordinate_set_contents` alone.
#[verifier::external_type_specification]
#[verifier::external_body]
#[verifier::reject_recursive_types(K)]
#[verifier::reject_recursive_types(S)]
pub struct ExDashSet<K, S>(DashSet<K, S>);

/// The entries of a chunk map: each key with the chunk stored under it.
pub uninterp spec fn chunk_map_contents(m: DashMap<IVec3, Arc<VoxelChunk>, RandomState>) -> Map<
    IVec3,
    VoxelChunk,
>;

/// The coordinates that a coordinate set holds.
pub uninterp spec fn coordinate_set_contents(s: DashSet<IVec3>) -> Set<IVec3>;

/// `DashMap::default`: a map with no entries.
#[verifier::external_body]
fn chunk_map_new() -> (m: DashMap<IVec3, Arc<VoxelChunk>, RandomState>)
    ensures
        chunk_map_contents(m) == (Map::<IVec3, VoxelChunk>::empty()),
{
    DashMap::default()
}

/// `DashMap::insert`: afterwards the key maps to the given chunk, whether or
/// not it was present, and every other entry is as before. Keys are
/// coordinates, equal when their three components are. The map shares the
/// chunk, which never changes again.
#[verifier::external_body]
fn chunk_map_insert(
    m: &mut DashMap<IVec3, Arc<VoxelChunk>, RandomState>,
    key: IVec3,
    chunk: Arc<VoxelChunk>,
)
    ensures
        chunk_map_contents(*final(m)) == chunk_map_contents(*old(m)).insert(key, *chunk),
{
    m.insert(key, chunk);
}

/// `DashMap::contains_key`: whether the map has an entry under the key.
#[verifier::external_body]
fn chunk_map_contains_key(m: &DashMap<IVec3, Arc<VoxelChunk>, RandomState>, key: &IVec3) -> (r: bool)
    ensures
        r == chunk_map_contents(*m).contains_key(*key),
{
    m.contains_key(key)
}

/// `DashMap::get`: a share of the chunk stored under the key, or nothing
/// where the key has no entry. The guard that `get` hands out is dropped
/// before the call returns.
#[verifier::external_body]
fn chunk_map_get(m: &DashMap<IVec3, Arc<VoxelChunk>, RandomState>, key: &IVec3) -> (r: Option<
    Arc<VoxelChunk>,
>)
    ensures
        r is Some <==> chunk_map_contents(*m).contains_key(*key),
        r matches Some(chunk) ==> *chunk == chunk_map_contents(*m)[*key],
{
    m.get(key).map(|entry| Arc::clone(entry.value()))
}

/// `DashSet::default`: a set that holds nothing.
#[verifier::external_body]
fn coordinate_set_new() -> (s: DashSet<IVec3>)
    ensures
        coordinate_set_contents(s) == (Set::<IVec3>::empty()),
{
    DashSet::default()
}

/// `DashSet::insert`: afterwards the set holds the key besides what it held,
/// and the result tells whether the key is new to it.
#[verifier::external_body]
fn coordinate_set_insert(s: &mut DashSet<IVec3>, key: IVec3) -> (r: bool)
    ensures
        coordinate_set_contents(*final(s)) == coordinate_set_contents(*old(s)).insert(key),
        r == !coordinate_set_contents(*old(s)).contains(key),
{
    s.insert(key)
}

/// `DashSet::contains`: whether the set holds the key.
#[verifier::external_body]
fn coordinate_set_contains(s: &DashSet<IVec3>, key: &IVec3) -> (r: bool)
    ensures
        r == coordinate_set_contents(*s).contains(*key),
{
    s.contains(key)
}

/// The chunks of a scene, each under its own grid coordinate.
pub struct ChunkStore {
    map: DashMap<IVec3, Arc<VoxelChunk>, RandomState>,
}

impl View for ChunkStore {
    type V = Map<IVec3, ChunkView>;

    closed spec fn view(&self) -> Map<IVec3, ChunkView> {
        Map::new(
            |key: IVec3| chunk_map_contents(self.map).contains_key(key),
            |key: IVec3| chunk_map_contents(self.map)[key]@,
        )
    }
}

/// Every chunk is well formed and stands under its own position.
pub open spec fn chunks_wf(chunks: Map<IVec3, ChunkView>) -> bool {
    forall|key: IVec3| #[trigger]
        chunks.contains_key(key) ==> chunks[key].wf() && chunks[key].position == key
}

/// The coordinate of the chunk one step from `position` in the direction
/// with index `direction`, along each axis.
pub open spec fn neighbour_key(position: IVec3, direction: int) -> (int, int, int) {
    let step = direction_vector(direction as u8);
    (position.x + step.x, position.y + step.y, position.z + step.z)
}

/// The three coordinates fit a grid coordinate.
pub open spec fn is_key(key: (int, int, int)) -> bool {
    &&& i32::MIN <= key.0 <= i32::MAX
    &&& i32::MIN <= key.1 <= i32::MAX
    &&& i32::MIN <= key.2 <= i32::MAX
}

/// The grid coordinate with the three coordinates.
pub open spec fn as_key(key: (int, int, int)) -> IVec3 {
    IVec3 { x: key.0 as i32, y: key.1 as i32, z: key.2 as i32 }
}

/// The voxel of a scene at a scene-space position: that of the chunk which
/// holds the position, at the position's place within it. There is none
/// where the scene has no such chunk.
pub open spec fn scene_voxel(chunks: Map<IVec3, ChunkView>, x: int, y: int, z: int) -> Option<
    VoxelData,
> {
    let cx = chunk_coordinate(x);
    let cy = chunk_coordinate(y);
    let cz = chunk_coordinate(z);
    let key = IVec3 { x: cx as i32, y: cy as i32, z: cz as i32 };
    if i32::MIN <= cx <= i32::MAX && i32::MIN <= cy <= i32::MAX && i32::MIN <= cz <= i32::MAX
        && chunks.contains_key(key) {
        Some(chunks[key].voxels[linear_index(x % 16, y % 16, z % 16)])
    } else {
        None
    }
}

impl ChunkStore {
    pub open spec fn wf(&self) -> bool {
        chunks_wf(self@)
    }

    pub fn new() -> (r: Self)
        ensures
            r@ == (Map::<IVec3, ChunkView>::empty()),
            r.wf(),
    {
        let r = ChunkStore { map: chunk_map_new() };
        assert(r@ =~= Map::<IVec3, ChunkView>::empty());
        r
    }

    /// Stores a chunk under its position, in place of any chunk that stood
    /// there.
    pub fn insert(&mut self, chunk: VoxelChunk)
        requires
            old(self).wf(),
            chunk@.wf(),
        ensures
            final(self)@ == old(self)@.insert(chunk@.position, chunk@),
            final(self).wf(),
    {
        let key = chunk.position();
        let ghost view = chunk@;
        chunk_map_insert(&mut self.map, key, Arc::new(chunk));
        assert(self@ =~= old(self)@.insert(key, view));
    }

    pub fn contains_key(&self, key: &IVec3) -> (r: bool)
        ensures
            r == self@.contains_key(*key),
    {
        chunk_map_contains_key(&self.map, key)
    }

    /// The chunk at `key`, shared with the store.
    pub fn get(&self, key: &IVec3) -> (r: Option<Arc<VoxelChunk>>)
        ensures
            r is Some <==> self@.contains_key(*key),
            r matches Some(chunk) ==> chunk@ == self@[*key],
    {
        chunk_map_get(&self.map, key)
    }
}

/// The coordinates whose initialization has been asked for.
pub struct InitializationQueue {
    set: DashSet<IVec3>,
}

impl View for InitializationQueue {
    type V = Set<IVec3>;

    closed spec fn view(&self) -> Set<IVec3> {
        coordinate_set_contents(self.set)
    }
}

impl InitializationQueue {
    pub fn new() -> (r: Self)
        ensures
            r@ == (Set::<IVec3>::empty()),
    {
        InitializationQueue { set: coordinate_set_new() }
    }

    /// Records a coordinate, and tells whether it is new: in one step, so
    /// that of two requests for one coordinate only the first is told so.
    pub fn insert(&mut self, position: IVec3) -> (r: bool)
        ensures
            final(self)@ == old(self)@.insert(position),
            r == !old(self)@.contains(position),
    {
        coordinate_set_insert(&mut self.set, position)
    }

    pub fn contains(&self, position: &IVec3) -> (r: bool)
        ensures
            r == self@.contains(*position),
    {
        coordinate_set_contains(&self.set, position)
    }
}

} // verus!
