//! A chunk: a cube of voxels at a place in the chunk grid.

use crate::voxels::voxel_data::empty_voxel;
use crate::voxels::voxel_data::VoxelData;
use crate::voxels::voxel_shapes::VoxelShape;
use glam::IVec3;
use glam::UVec3;
use vstd::prelude::*;

verus! {

/// Voxels along each edge of a chunk.
pub const CHUNK_SIZE: u32 = 16;

/// Voxels in a chunk.
pub const CHUNK_VOLUME: usize = 4096;

/// The place of the voxel at `(x, y, z)` in the flat array of a chunk.
pub open spec fn linear_index(x: int, y: int, z: int) -> int {
    x * 256 + y * 16 + z
}

/// The place of the sample for `(x, y, z)` in a density field, which runs
/// along X fastest.
pub open spec fn sample_index(x: int, y: int, z: int) -> int {
    z * 256 + y * 16 + x
}

/// The position lies inside a chunk.
pub open spec fn in_chunk(x: int, y: int, z: int) -> bool {
    0 <= x < 16 && 0 <= y < 16 && 0 <= z < 16
}

/// Every voxel of the sequence is air.
pub open spec fn all_air(voxels: Seq<VoxelData>) -> bool {
    forall|i: int| 0 <= i < voxels.len() ==> (#[trigger] voxels[i]).id == 0
}

/// The chunk that holds a scene-space coordinate, along one axis.
pub open spec fn chunk_coordinate(c: int) -> int {
    c / 16
}

/// How much matter a density sample found at a voxel: none, less than one
/// step of the height gradient (the voxel lies at the surface), or more.
#[derive(Clone, Copy, PartialEq, Eq, Structural, Debug)]
pub enum Density {
    Air,
    Surface,
    Deep,
}

/// The content id given to a voxel at the surface.
pub const SURFACE_ID: u16 = 1;

/// The content id given to a voxel below the surface.
pub const DEEP_ID: u16 = 2;

impl Density {
    /// The voxel that a sample of this density becomes: a cube, whose id
    /// tells air, surface and depth apart.
    pub open spec fn voxel(&self) -> VoxelData {
        VoxelData {
            shape: VoxelShape { data: 0 },
            state: 0,
            id: match self {
                Density::Air => 0u16,
                Density::Surface => SURFACE_ID,
                Density::Deep => DEEP_ID,
            },
        }
    }

    pub fn to_voxel(&self) -> (r: VoxelData)
        ensures
            r == self.voxel(),
            r.is_air() <==> *self == Density::Air,
    {
        let id = match self {
            Density::Air => 0u16,
            Density::Surface => SURFACE_ID,
            Density::Deep => DEEP_ID,
        };
        VoxelData { shape: VoxelShape { data: 0 }, state: 0, id }
    }
}

/// For the voxel at place `index` of a chunk, the place of its sample in a
/// density field: the same position, counted along X fastest.
pub open spec fn sample_of(index: int) -> int {
    sample_index(index / 256, (index % 256) / 16, index % 16)
}

/// The voxels that a density field gives a chunk.
pub open spec fn voxels_of(densities: Seq<Density>) -> Seq<VoxelData> {
    Seq::new(4096, |i: int| densities[sample_of(i)].voxel())
}

/// What a chunk is: where it lies, whether it is all air, and its voxels in
/// the order of `linear_index`.
pub struct ChunkView {
    pub position: IVec3,
    pub is_empty: bool,
    pub voxels: Seq<VoxelData>,
}

impl ChunkView {
    /// A full array of voxels, and the flag that says whether all are air.
    pub open spec fn wf(&self) -> bool {
        &&& self.voxels.len() == 4096
        &&& self.is_empty <==> all_air(self.voxels)
    }

    /// The voxel at a scene-space position, where the chunk holds it.
    pub open spec fn voxel_at_global(&self, x: int, y: int, z: int) -> Option<VoxelData> {
        let lx = x - self.position.x * 16;
        let ly = y - self.position.y * 16;
        let lz = z - self.position.z * 16;
        if in_chunk(lx, ly, lz) {
            Some(self.voxels[linear_index(lx, ly, lz)])
        } else {
            None
        }
    }
}

/// A cube of `CHUNK_SIZE` voxels a side, at `position` in the chunk grid.
pub struct VoxelChunk {
    position: IVec3,
    is_empty: bool,
    voxels: Vec<VoxelData>,
}

impl View for VoxelChunk {
    type V = ChunkView;

    closed spec fn view(&self) -> ChunkView {
        ChunkView { position: self.position, is_empty: self.is_empty, voxels: self.voxels@ }
    }
}

impl Clone for VoxelChunk {
    fn clone(&self) -> (r: Self)
        ensures
            r@ == self@,
    {
        let voxels = self.voxels.clone();
        assert(voxels@ =~= self.voxels@);
        Self { position: self.position, is_empty: self.is_empty, voxels }
    }
}

pub fn pos_to_index(pos: &UVec3) -> (r: u32)
    requires
        linear_index(pos.x as int, pos.y as int, pos.z as int) <= u32::MAX,
    ensures
        r == linear_index(pos.x as int, pos.y as int, pos.z as int),
{
    (pos.x * CHUNK_SIZE * CHUNK_SIZE) + (pos.y * CHUNK_SIZE) + pos.z
}

pub fn pos_to_index_inverse(pos: &UVec3) -> (r: u32)
    requires
        sample_index(pos.x as int, pos.y as int, pos.z as int) <= u32::MAX,
    ensures
        r == sample_index(pos.x as int, pos.y as int, pos.z as int),
{
    (pos.z * CHUNK_SIZE * CHUNK_SIZE) + (pos.y * CHUNK_SIZE) + pos.x
}

pub fn index_to_pos(index: u32) -> (r: UVec3)
    ensures
        r.x == index / 256,
        r.y == (index % 256) / 16,
        r.z == index % 16,
        index < 4096 ==> in_chunk(r.x as int, r.y as int, r.z as int),
        linear_index(r.x as int, r.y as int, r.z as int) == index,
{
    let x = index / (CHUNK_SIZE * CHUNK_SIZE);
    let y = index % (CHUNK_SIZE * CHUNK_SIZE) / CHUNK_SIZE;
    let z = index % CHUNK_SIZE;
    UVec3 { x, y, z }
}

/// Inside a chunk, positions and indices stand one to one.
pub proof fn lemma_index_round_trip(x: int, y: int, z: int)
    requires
        in_chunk(x, y, z),
    ensures
        0 <= linear_index(x, y, z) < 4096,
        linear_index(x, y, z) / 256 == x,
        (linear_index(x, y, z) % 256) / 16 == y,
        linear_index(x, y, z) % 16 == z,
{
}

/// Voxels and samples stand one to one: the sample of a voxel's place is
/// a place, and the voxel there has the first place for its sample.
pub proof fn lemma_sample_of_involution(index: int)
    requires
        0 <= index < 4096,
    ensures
        0 <= sample_of(index) < 4096,
        sample_of(sample_of(index)) == index,
{
    let x = index / 256;
    let y = (index % 256) / 16;
    let z = index % 16;
    assert(in_chunk(x, y, z));
    assert(index == linear_index(x, y, z));
    let sample = sample_of(index);
    assert(sample == linear_index(z, y, x));
    lemma_index_round_trip(z, y, x);
}

/// The density field and the voxels made from it tell the same: all of one
/// is air just when all of the other is.
pub proof fn lemma_samples_cover(densities: Seq<Density>)
    requires
        densities.len() == 4096,
    ensures
        all_air(voxels_of(densities)) <==> forall|k: int|
            0 <= k < 4096 ==> densities[k] == Density::Air,
{
    let voxels = voxels_of(densities);
    if all_air(voxels) {
        assert forall|k: int| 0 <= k < 4096 implies densities[k] == Density::Air by {
            let i = sample_of(k);
            lemma_sample_of_involution(k);
            assert(voxels[i].id == 0);
            assert(voxels[i] == densities[k].voxel());
        }
    }
    if forall|k: int| 0 <= k < 4096 ==> densities[k] == Density::Air {
        assert forall|i: int| 0 <= i < voxels.len() implies (#[trigger] voxels[i]).id == 0 by {
            lemma_sample_of_involution(i);
            assert(densities[sample_of(i)] == Density::Air);
        }
    }
}

impl VoxelChunk {
    /// A chunk of air.
    pub fn new(position: IVec3) -> (r: Self)
        ensures
            r@.position == position,
            r@.is_empty,
            r@.voxels == Seq::new(4096, |i: int| empty_voxel()),
            r@.wf(),
    {
        let mut voxels: Vec<VoxelData> = Vec::new();
        let mut i: usize = 0;
        while i < CHUNK_VOLUME
            invariant
                i <= CHUNK_VOLUME,
                voxels@.len() == i,
                forall|k: int| 0 <= k < i ==> voxels@[k] == empty_voxel(),
            decreases CHUNK_VOLUME - i,
        {
            voxels.push(VoxelData { shape: VoxelShape { data: 0 }, state: 0, id: 0 });
            i += 1;
        }
        assert(voxels@ =~= Seq::new(4096, |i: int| empty_voxel()));
        Self { position, is_empty: true, voxels }
    }

    /// The chunk at `position` that a density field describes. The field
    /// holds one sample per voxel and runs along X fastest.
    pub fn from_densities(position: IVec3, densities: &Vec<Density>) -> (r: Self)
        requires
            densities@.len() == 4096,
        ensures
            r@.position == position,
            r@.voxels == voxels_of(densities@),
            r@.is_empty <==> forall|k: int| 0 <= k < 4096 ==> densities@[k] == Density::Air,
            r@.wf(),
    {
        let mut voxels: Vec<VoxelData> = Vec::new();
        let mut is_empty = true;
        let mut index: u32 = 0;
        while index < 4096
            invariant
                index <= 4096,
                densities@.len() == 4096,
                voxels@.len() == index,
                forall|k: int| 0 <= k < index ==> voxels@[k] == densities@[sample_of(k)].voxel(),
                is_empty <==> forall|k: int| 0 <= k < index ==> (#[trigger] voxels@[k]).id == 0,
            decreases 4096 - index,
        {
            let voxel_pos = index_to_pos(index);
            let sample = pos_to_index_inverse(&voxel_pos);
            assert(sample == sample_of(index as int));
            let voxel = densities[sample as usize].to_voxel();
            let ghost before = voxels@;
            let ghost was_empty = is_empty;
            if voxel.id != 0 {
                is_empty = false;
            }
            voxels.push(voxel);
            proof {
                let after = voxels@;
                assert(forall|k: int| 0 <= k < index ==> after[k] == before[k]);
                assert(after[index as int] == voxel);
                if is_empty {
                    assert forall|k: int| 0 <= k < index + 1 implies (#[trigger] after[k]).id
                        == 0 by {
                        if k < index {
                            assert(before[k].id == 0);
                        }
                    }
                }
                if forall|k: int| 0 <= k < index + 1 ==> (#[trigger] after[k]).id == 0 {
                    assert(after[index as int].id == 0);
                    assert forall|k: int| 0 <= k < index implies (#[trigger] before[k]).id
                        == 0 by {
                        assert(after[k].id == 0);
                    }
                    assert(was_empty);
                }
            }
            index += 1;
        }
        assert(voxels@ =~= voxels_of(densities@));
        proof {
            lemma_samples_cover(densities@);
        }
        Self { position, is_empty, voxels }
    }

    /// Where the chunk lies in the chunk grid.
    pub fn position(&self) -> (r: IVec3)
        ensures
            r == self@.position,
    {
        self.position
    }

    /// Whether every voxel of the chunk is air.
    pub fn is_empty(&self) -> (r: bool)
        ensures
            r == self@.is_empty,
    {
        self.is_empty
    }

    pub fn voxel_at(&self, position: &UVec3) -> (r: &VoxelData)
        requires
            self@.wf(),
            linear_index(position.x as int, position.y as int, position.z as int) < 4096,
        ensures
            *r == self@.voxels[linear_index(
                position.x as int,
                position.y as int,
                position.z as int,
            )],
    {
        &self.voxels[pos_to_index(position) as usize]
    }

    pub fn voxel_scenespace_at(&self, position: &IVec3) -> (r: Option<&VoxelData>)
        requires
            self@.wf(),
        ensures
            match r {
                Some(v) => self@.voxel_at_global(
                    position.x as int,
                    position.y as int,
                    position.z as int,
                ) == Some(*v),
                None => self@.voxel_at_global(
                    position.x as int,
                    position.y as int,
                    position.z as int,
                ) is None,
            },
    {
        let lx: i64 = position.x as i64 - (self.position.x as i64) * 16;
        let ly: i64 = position.y as i64 - (self.position.y as i64) * 16;
        let lz: i64 = position.z as i64 - (self.position.z as i64) * 16;
        if lx >= 16 || ly >= 16 || lz >= 16 || lx < 0 || ly < 0 || lz < 0 {
            return None;
        }
        let local = UVec3 { x: lx as u32, y: ly as u32, z: lz as u32 };
        Some(self.voxel_at(&local))
    }

    pub fn set_voxel_shape(&mut self, position: &UVec3, shape: VoxelShape)
        requires
            old(self)@.wf(),
            linear_index(position.x as int, position.y as int, position.z as int) < 4096,
        ensures
            final(self)@.wf(),
            final(self)@.position == old(self)@.position,
            final(self)@.is_empty == old(self)@.is_empty,
            final(self)@.voxels == old(self)@.voxels.update(
                linear_index(position.x as int, position.y as int, position.z as int),
                VoxelData {
                    shape,
                    ..old(self)@.voxels[linear_index(
                        position.x as int,
                        position.y as int,
                        position.z as int,
                    )]
                },
            ),
    {
        let index = pos_to_index(position) as usize;
        let voxel = self.voxels[index];
        self.voxels.set(index, VoxelData { shape, state: voxel.state, id: voxel.id });
        assert(all_air(self.voxels@) <==> all_air(old(self).voxels@)) by {
            let a = old(self).voxels@;
            let b = self.voxels@;
            assert forall|i: int| 0 <= i < 4096 implies (#[trigger] a[i]).id == b[i].id by {}
            if all_air(a) {
                assert forall|i: int| 0 <= i < b.len() implies (#[trigger] b[i]).id == 0 by {
                    assert(a[i].id == 0);
                }
            }
            if all_air(b) {
                assert forall|i: int| 0 <= i < a.len() implies (#[trigger] a[i]).id == 0 by {
                    assert(b[i].id == 0);
                }
            }
        }
    }

    /// The scene-space position of the chunk's first voxel.
    pub fn scenespace_pos(&self) -> (r: IVec3)
        requires
            i32::MIN <= self@.position.x * 16 <= i32::MAX,
            i32::MIN <= self@.position.y * 16 <= i32::MAX,
            i32::MIN <= self@.position.z * 16 <= i32::MAX,
        ensures
            r.x == self@.position.x * 16,
            r.y == self@.position.y * 16,
            r.z == self@.position.z * 16,
    {
        IVec3 { x: self.position.x * 16, y: self.position.y * 16, z: self.position.z * 16 }
    }
}

} // verus!
