//! A scene of chunks, and the steps of the pipeline that fills it.
//!
//! A chunk coordinate passes three stages. The initializer makes the chunk
//! from a density field and stores it. The dependency gate lets a chunk
//! through to meshing once its six neighbours are stored, asks for those
//! that are not, and holds the chunk back for another round meanwhile. The
//! mesher builds the mesh. Each stage is one function here, from the scene
//! and what arrived to the changed scene and what is to be sent on; the
//! queues between the stages and the workers that drain them are the
//! caller's.

use crate::voxels::chunk_store::as_key;
use crate::voxels::chunk_store::chunks_wf;
use crate::voxels::chunk_store::is_key;
use crate::voxels::chunk_store::neighbour_key;
use crate::voxels::chunk_store::scene_voxel;
use crate::voxels::chunk_store::ChunkStore;
use crate::voxels::chunk_store::InitializationQueue;
use crate::voxels::voxel_chunk::chunk_coordinate;
use crate::voxels::voxel_chunk::voxels_of;
use crate::voxels::voxel_chunk::ChunkView;
use crate::voxels::voxel_chunk::Density;
use crate::voxels::voxel_chunk::VoxelChunk;
use crate::voxels::voxel_data::VoxelData;
use crate::voxels::chunk_mesh::chunk_placements;
use crate::voxels::chunk_mesh::neighbour_voxel;
use crate::voxels::chunk_mesh::lemma_air_has_no_mesh;
use crate::voxels::chunk_mesh::ChunkMesh;
use crate::voxels::voxel_mesh::MeshTemplates;
use crate::voxels::voxel_mesh::VoxelMesh;
use crate::voxels::voxel_shapes::direction_vector;
use crate::voxels::voxel_shapes::ShapeOrientations;
use crate::voxels::voxel_shapes::VoxelDirection;
use glam::IVec3;
use vstd::prelude::*;

verus! {

/// A request to the initializer: the chunk to make, and whether the
/// dependency gate is to be told once it is stored.
#[derive(Clone, Copy, PartialEq, Eq, Debug)]
pub struct InitializationRequest {
    pub position: IVec3,
    pub notify: bool,
}

/// What the dependency gate decides of a chunk.
#[derive(Clone, Copy, PartialEq, Eq, Structural, Debug)]
pub enum GateVerdict {
    /// The chunk and its six neighbours are stored, and the chunk holds
    /// something: it goes on to the mesher.
    Forward,
    /// The chunk and its six neighbours are stored, and the chunk is all
    /// air: it needs no mesh.
    Drop,
    /// The chunk or one of its neighbours is not stored yet: the chunk is
    /// held back for another round.
    Retry,
}

/// What one round of the dependency gate sends on.
pub struct GateOutput {
    /// The neighbours to initialize, without word to the dependency gate
    /// once they are stored.
    pub to_initialize: Vec<IVec3>,
    /// The chunks to mesh.
    pub to_mesh: Vec<IVec3>,
}

/// What a scene is: its chunks, and the coordinates whose initialization
/// has been asked for.
pub struct SceneView {
    pub chunks: Map<IVec3, ChunkView>,
    pub requested: Set<IVec3>,
}

impl SceneView {
    /// The scene has grown out of `earlier`: what was asked for is still
    /// on record, and every chunk that was stored is stored unchanged.
    pub open spec fn extends(self, earlier: SceneView) -> bool {
        &&& earlier.requested.subset_of(self.requested)
        &&& forall|key: IVec3| #[trigger]
            earlier.chunks.contains_key(key) ==> self.chunks.contains_key(key)
                && self.chunks[key] == earlier.chunks[key]
    }
}

/// The chunks of a world and the record of what has been asked for.
pub struct VoxelScene {
    chunks: ChunkStore,
    initialization_queue: InitializationQueue,
    shape_orientations: ShapeOrientations,
}

impl View for VoxelScene {
    type V = SceneView;

    closed spec fn view(&self) -> SceneView {
        SceneView { chunks: self.chunks@, requested: self.initialization_queue@ }
    }
}

/// The scene has all six neighbours of the chunk at `position`.
pub open spec fn neighbours_present(chunks: Map<IVec3, ChunkView>, position: IVec3) -> bool {
    forall|d: int|
        0 <= d < 6 ==> is_key(#[trigger] neighbour_key(position, d)) && chunks.contains_key(
            as_key(neighbour_key(position, d)),
        )
}

/// What the dependency gate decides of the chunk at `position`.
pub open spec fn gate_verdict(chunks: Map<IVec3, ChunkView>, position: IVec3) -> GateVerdict {
    if neighbours_present(chunks, position) && chunks.contains_key(position) {
        if chunks[position].is_empty {
            GateVerdict::Drop
        } else {
            GateVerdict::Forward
        }
    } else {
        GateVerdict::Retry
    }
}

/// The neighbours of the chunk at `position` that the scene lacks, among
/// the first `count` directions and in their order. A neighbour whose
/// coordinate does not fit the grid is none.
pub open spec fn missing_neighbours(chunks: Map<IVec3, ChunkView>, position: IVec3, count: int) -> Seq<
    IVec3,
>
    decreases count,
{
    if count <= 0 {
        Seq::empty()
    } else {
        let before = missing_neighbours(chunks, position, count - 1);
        let key = neighbour_key(position, count - 1);
        if is_key(key) && !chunks.contains_key(as_key(key)) {
            before.push(as_key(key))
        } else {
            before
        }
    }
}

/// The neighbours that the chunks of a batch lack, chunk by chunk.
pub open spec fn all_missing(chunks: Map<IVec3, ChunkView>, batch: Seq<IVec3>) -> Seq<IVec3>
    decreases batch.len(),
{
    if batch.len() == 0 {
        Seq::empty()
    } else {
        all_missing(chunks, batch.drop_last()) + missing_neighbours(chunks, batch.last(), 6)
    }
}

/// The coordinates of a sequence that are new: not asked for before, and
/// each at its first occurrence only.
pub open spec fn fresh(positions: Seq<IVec3>, requested: Set<IVec3>) -> Seq<IVec3>
    decreases positions.len(),
{
    if positions.len() == 0 {
        Seq::empty()
    } else {
        let before = fresh(positions.drop_last(), requested);
        let position = positions.last();
        if requested.contains(position) || positions.drop_last().contains(position) {
            before
        } else {
            before.push(position)
        }
    }
}

/// The chunks of a batch whose verdict is `verdict`, in the order of the
/// batch.
pub open spec fn with_verdict(
    chunks: Map<IVec3, ChunkView>,
    batch: Seq<IVec3>,
    verdict: GateVerdict,
) -> Seq<IVec3>
    decreases batch.len(),
{
    if batch.len() == 0 {
        Seq::empty()
    } else {
        let before = with_verdict(chunks, batch.drop_last(), verdict);
        if gate_verdict(chunks, batch.last()) == verdict {
            before.push(batch.last())
        } else {
            before
        }
    }
}

/// The chunk coordinate of a scene-space coordinate, along one axis.
fn chunk_of(c: i32) -> (r: i32)
    ensures
        r == chunk_coordinate(c as int),
{
    let q = c / 16;
    if c % 16 < 0 {
        q - 1
    } else {
        q
    }
}

/// A chunk of air is never meshed: with all its neighbours stored it is
/// dropped, and its mesh would be empty.
pub proof fn lemma_empty_chunk_is_dropped(
    chunks: Map<IVec3, ChunkView>,
    position: IVec3,
    templates: Seq<VoxelMesh>,
)
    requires
        chunks_wf(chunks),
        chunks.contains_key(position),
        chunks[position].is_empty,
    ensures
        gate_verdict(chunks, position) != GateVerdict::Forward,
        neighbours_present(chunks, position) ==> gate_verdict(chunks, position)
            == GateVerdict::Drop,
        chunk_placements(chunks[position], chunks, 4096).len() == 0,
{
    lemma_air_has_no_mesh(chunks[position], chunks, templates, 4096);
}

/// Growth is an order: a scene extends itself, and what extends an
/// extension extends the scene it came from.
pub proof fn lemma_extends_is_an_order(first: SceneView, second: SceneView, third: SceneView)
    ensures
        first.extends(first),
        third.extends(second) && second.extends(first) ==> third.extends(first),
{
    if third.extends(second) && second.extends(first) {
        assert forall|key: IVec3| #[trigger] first.chunks.contains_key(key) implies
            third.chunks.contains_key(key) && third.chunks[key] == first.chunks[key] by {
            assert(second.chunks.contains_key(key));
        }
    }
}

/// A chunk that was let through to the mesher is meshed among its
/// neighbours: in every scene grown out of the one in which it was let
/// through, the chunk is stored and holds something, and beyond each face
/// of each of its voxels there is a voxel to be found, in the chunk itself
/// or in one of the six around it.
pub proof fn lemma_forwarded_chunk_has_neighbours(
    earlier: SceneView,
    later: SceneView,
    position: IVec3,
    index: int,
    direction: VoxelDirection,
)
    requires
        chunks_wf(later.chunks),
        later.extends(earlier),
        gate_verdict(earlier.chunks, position) == GateVerdict::Forward,
        0 <= index < 4096,
        direction.wf(),
    ensures
        later.chunks.contains_key(position),
        !later.chunks[position].is_empty,
        ({
            let step = direction_vector(direction.data);
            neighbour_voxel(
                later.chunks[position],
                later.chunks,
                position.x * 16 + index / 256 + step.x,
                position.y * 16 + (index % 256) / 16 + step.y,
                position.z * 16 + index % 16 + step.z,
            ) is Some
        }),
{
    let chunk = later.chunks[position];
    assert(earlier.chunks.contains_key(position));
    assert(chunk.position == position);
    let step = direction_vector(direction.data);
    let x = position.x * 16 + index / 256 + step.x;
    let y = position.y * 16 + (index % 256) / 16 + step.y;
    let z = position.z * 16 + index % 16 + step.z;
    if chunk.voxel_at_global(x, y, z) is None {
        let key = neighbour_key(position, direction.data as int);
        assert(is_key(key) && earlier.chunks.contains_key(as_key(key)));
        assert(later.chunks.contains_key(as_key(key)));
        assert(chunk_coordinate(x) == key.0);
        assert(chunk_coordinate(y) == key.1);
        assert(chunk_coordinate(z) == key.2);
    }
}

/// A chunk that lacks a neighbour is held back, whatever it holds.
pub proof fn lemma_lone_chunk_waits(chunks: Map<IVec3, ChunkView>, position: IVec3, d: int)
    requires
        0 <= d < 6,
        !is_key(neighbour_key(position, d)) || !chunks.contains_key(
            as_key(neighbour_key(position, d)),
        ),
    ensures
        gate_verdict(chunks, position) == GateVerdict::Retry,
{
}

/// No coordinate is asked for twice: what `fresh` lets through was not
/// asked for before, and holds nothing twice.
pub proof fn lemma_fresh_is_new(positions: Seq<IVec3>, requested: Set<IVec3>)
    ensures
        forall|k: int|
            0 <= k < fresh(positions, requested).len() ==> !requested.contains(
                #[trigger] fresh(positions, requested)[k],
            ) && positions.contains(fresh(positions, requested)[k]),
        forall|i: int, j: int|
            0 <= i < j < fresh(positions, requested).len() ==> fresh(positions, requested)[i]
                != fresh(positions, requested)[j],
        forall|k: int|
            0 <= k < positions.len() && !requested.contains(positions[k]) ==> fresh(
                positions,
                requested,
            ).contains(#[trigger] positions[k]),
    decreases positions.len(),
{
    if positions.len() > 0 {
        let rest = positions.drop_last();
        let last = positions.last();
        lemma_fresh_is_new(rest, requested);
        let before = fresh(rest, requested);
        let all = fresh(positions, requested);
        assert forall|k: int| 0 <= k < all.len() implies !requested.contains(#[trigger] all[k])
            && positions.contains(all[k]) by {
            if k < before.len() {
                assert(all[k] == before[k]);
                let w = choose|w: int| 0 <= w < rest.len() && rest[w] == before[k];
                assert(positions[w] == before[k]);
            } else {
                assert(all[k] == last);
                assert(positions[positions.len() - 1] == last);
            }
        }
        assert forall|i: int, j: int| 0 <= i < j < all.len() implies all[i] != all[j] by {
            if j >= before.len() {
                assert(all[j] == last);
                assert(all[i] == before[i]);
                assert(rest.contains(before[i]));
            } else {
                assert(all[i] == before[i] && all[j] == before[j]);
            }
        }
        assert forall|k: int|
            0 <= k < positions.len() && !requested.contains(positions[k]) implies all.contains(
            #[trigger] positions[k],
        ) by {
            if k < rest.len() {
                assert(rest[k] == positions[k]);
                assert(before.contains(rest[k]));
                let w = choose|w: int| 0 <= w < before.len() && before[w] == rest[k];
                assert(all[w] == rest[k]);
            } else {
                if rest.contains(last) {
                    let v = choose|v: int| 0 <= v < rest.len() && rest[v] == last;
                    assert(before.contains(rest[v]));
                    let w = choose|w: int| 0 <= w < before.len() && before[w] == rest[v];
                    assert(all[w] == last);
                } else {
                    assert(all[all.len() - 1] == last);
                }
            }
        }
    }
}

impl VoxelScene {
    /// The table of occlusion masks is built.
    pub closed spec fn masks_wf(&self) -> bool {
        self.shape_orientations.wf()
    }

    /// Every chunk is well formed and stands under its own position, and
    /// the table of occlusion masks is built.
    pub open spec fn wf(&self) -> bool {
        chunks_wf(self@.chunks) && self.masks_wf()
    }

    /// A scene without chunks, of which nothing has been asked.
    pub fn new() -> (r: Self)
        ensures
            r@.chunks == (Map::<IVec3, ChunkView>::empty()),
            r@.requested == (Set::<IVec3>::empty()),
            r.wf(),
    {
        Self {
            chunks: ChunkStore::new(),
            initialization_queue: InitializationQueue::new(),
            shape_orientations: ShapeOrientations::new(),
        }
    }

    /// The table of occlusion masks that the scene built.
    pub fn shape_orientations(&self) -> (r: &ShapeOrientations)
        ensures
            self.masks_wf() ==> r.wf(),
    {
        &self.shape_orientations
    }

    /// The chunks of the scene.
    pub fn chunks(&self) -> (r: &ChunkStore)
        ensures
            r@ == self@.chunks,
    {
        &self.chunks
    }

    /// Whether the initialization of a chunk has been asked for.
    pub fn is_requested(&self, position: &IVec3) -> (r: bool)
        ensures
            r == self@.requested.contains(*position),
    {
        self.initialization_queue.contains(position)
    }

    /// The voxel at a scene-space position, if the chunk that holds the
    /// position is stored.
    pub fn voxel_at(&self, position: &IVec3) -> (r: Option<VoxelData>)
        requires
            self.wf(),
        ensures
            r == scene_voxel(
                self@.chunks,
                position.x as int,
                position.y as int,
                position.z as int,
            ),
    {
        let chunk_pos = Self::chunk_at(position);
        match self.chunks.get(&chunk_pos) {
            Some(chunk) => {
                match chunk.voxel_scenespace_at(position) {
                    Some(voxel) => Some(*voxel),
                    None => None,
                }
            },
            None => None,
        }
    }

    /// The coordinate of the chunk that holds a scene-space position.
    pub fn chunk_at(position: &IVec3) -> (r: IVec3)
        ensures
            r.x == chunk_coordinate(position.x as int),
            r.y == chunk_coordinate(position.y as int),
            r.z == chunk_coordinate(position.z as int),
    {
        IVec3 { x: chunk_of(position.x), y: chunk_of(position.y), z: chunk_of(position.z) }
    }

    /// Records a request, and hands it back for sending if its chunk has
    /// not been asked for before.
    pub fn request_initialize_chunk(&mut self, request: InitializationRequest) -> (r: Option<
        InitializationRequest,
    >)
        ensures
            old(self).wf() ==> final(self).wf(),
            final(self)@.extends(old(self)@),
            final(self)@.requested == old(self)@.requested.insert(request.position),
            final(self)@.chunks == old(self)@.chunks,
            r == if old(self)@.requested.contains(request.position) {
                None
            } else {
                Some(request)
            },
    {
        if self.initialization_queue.insert(request.position) {
            Some(request)
        } else {
            None
        }
    }

    /// Asks for a chunk to be initialized and then meshed: the request to
    /// send to the initializer, unless the chunk has been asked for before.
    pub fn initialize_and_generate_chunk(&mut self, position: IVec3) -> (r: Option<
        InitializationRequest,
    >)
        ensures
            old(self).wf() ==> final(self).wf(),
            final(self)@.extends(old(self)@),
            final(self)@.requested == old(self)@.requested.insert(position),
            final(self)@.chunks == old(self)@.chunks,
            r == if old(self)@.requested.contains(position) {
                None
            } else {
                Some(InitializationRequest { position, notify: true })
            },
    {
        self.request_initialize_chunk(InitializationRequest { position, notify: true })
    }

    /// The initializer's step for one request and the density field sampled
    /// for it. Where the chunk is stored already nothing changes; else the
    /// chunk that the field describes is stored. The result is the
    /// coordinate to tell the dependency gate of: that of the chunk, where
    /// it was stored now and the request asked for it.
    pub fn initialization_processor(
        &mut self,
        request: InitializationRequest,
        densities: &Vec<Density>,
    ) -> (r: Option<IVec3>)
        requires
            old(self).wf(),
            densities@.len() == 4096,
        ensures
            final(self).wf(),
            final(self)@.extends(old(self)@),
            final(self)@.requested == old(self)@.requested,
            old(self)@.chunks.contains_key(request.position) ==> final(self)@.chunks == old(
                self,
            )@.chunks && r is None,
            !old(self)@.chunks.contains_key(request.position) ==> final(self)@.chunks == old(
                self,
            )@.chunks.insert(
                request.position,
                ChunkView {
                    position: request.position,
                    is_empty: forall|k: int| 0 <= k < 4096 ==> densities@[k] == Density::Air,
                    voxels: voxels_of(densities@),
                },
            ) && r == if request.notify {
                Some(request.position)
            } else {
                None
            },
    {
        if self.chunks.contains_key(&request.position) {
            return None;
        }
        let chunk = VoxelChunk::from_densities(request.position, densities);
        self.chunks.insert(chunk);
        if request.notify {
            Some(request.position)
        } else {
            None
        }
    }

    /// The dependency gate's decision of one chunk, together with the
    /// requests it makes for the neighbours that are missing.
    fn gate_check(&mut self, chunk_pos: IVec3, to_initialize: &mut Vec<IVec3>, Ghost(seen): Ghost<
        Seq<IVec3>,
    >, Ghost(requested): Ghost<Set<IVec3>>) -> (r: GateVerdict)
        requires
            old(to_initialize)@ == fresh(seen, requested),
            old(self)@.requested == requested.union(seen.to_set()),
        ensures
            old(self).wf() ==> final(self).wf(),
            r == gate_verdict(old(self)@.chunks, chunk_pos),
            final(self)@.chunks == old(self)@.chunks,
            final(to_initialize)@ == fresh(
                seen + missing_neighbours(old(self)@.chunks, chunk_pos, 6),
                requested,
            ),
            final(self)@.requested == requested.union(
                (seen + missing_neighbours(old(self)@.chunks, chunk_pos, 6)).to_set(),
            ),
    {
        let ghost chunks = self@.chunks;
        let mut failed = false;
        let mut d: u8 = 0;
        assert(seen + missing_neighbours(chunks, chunk_pos, 0) =~= seen);
        while d < 6
            invariant
                d <= 6,
                old(self).wf() ==> self.wf(),
                self@.chunks == chunks,
                to_initialize@ == fresh(
                    seen + missing_neighbours(chunks, chunk_pos, d as int),
                    requested,
                ),
                self@.requested == requested.union(
                    (seen + missing_neighbours(chunks, chunk_pos, d as int)).to_set(),
                ),
                !failed <==> forall|k: int|
                    0 <= k < d ==> is_key(#[trigger] neighbour_key(chunk_pos, k))
                        && chunks.contains_key(as_key(neighbour_key(chunk_pos, k))),
            decreases 6 - d,
        {
            let step = VoxelDirection { data: d }.as_vec();
            let x = chunk_pos.x.checked_add(step.x);
            let y = chunk_pos.y.checked_add(step.y);
            let z = chunk_pos.z.checked_add(step.z);
            let ghost so_far = seen + missing_neighbours(chunks, chunk_pos, d as int);
            let ghost next = seen + missing_neighbours(chunks, chunk_pos, d as int + 1);
            match (x, y, z) {
                (Some(x), Some(y), Some(z)) => {
                    let neighbour_pos = IVec3 { x, y, z };
                    assert(neighbour_pos == as_key(neighbour_key(chunk_pos, d as int)));
                    if !self.chunks.contains_key(&neighbour_pos) {
                        failed = true;
                        let is_new = self.initialization_queue.insert(neighbour_pos);
                        proof {
                            assert(next =~= so_far.push(neighbour_pos));
                            assert(next.drop_last() =~= so_far);
                            assert(so_far.contains(neighbour_pos) <==> so_far.to_set().contains(
                                neighbour_pos,
                            ));
                            assert(next.to_set() =~= so_far.to_set().insert(neighbour_pos)) by {
                                assert forall|p: IVec3|
                                    next.to_set().contains(p) <==> so_far.to_set().insert(
                                        neighbour_pos,
                                    ).contains(p) by {
                                    if next.contains(p) {
                                        let w = choose|w: int| 0 <= w < next.len() && next[w] == p;
                                        if w < so_far.len() {
                                            assert(so_far[w] == p);
                                        }
                                    }
                                    if so_far.contains(p) {
                                        let w = choose|w: int|
                                            0 <= w < so_far.len() && so_far[w] == p;
                                        assert(next[w] == p);
                                    }
                                    assert(next[next.len() - 1] == neighbour_pos);
                                }
                            }
                            assert(requested.union(next.to_set()) =~= requested.union(
                                so_far.to_set(),
                            ).insert(neighbour_pos));
                        }
                        if is_new {
                            to_initialize.push(neighbour_pos);
                        }
                    } else {
                        assert(next =~= so_far);
                    }
                },
                _ => {
                    failed = true;
                    assert(!is_key(neighbour_key(chunk_pos, d as int)));
                    assert(next =~= so_far);
                },
            }
            d += 1;
        }
        if !failed && self.chunks.contains_key(&chunk_pos) {
            match self.chunks.get(&chunk_pos) {
                Some(chunk) => {
                    if chunk.is_empty() {
                        GateVerdict::Drop
                    } else {
                        GateVerdict::Forward
                    }
                },
                None => GateVerdict::Retry,
            }
        } else {
            GateVerdict::Retry
        }
    }

    /// One round of the dependency gate, over the chunks that were received
    /// and then those held back in earlier rounds. Of each it decides
    /// whether it goes on to the mesher, needs no mesh, or is held back
    /// again, and it asks once for each neighbour that is missing and was
    /// not asked for before.
    pub fn generation_pre_processor(
        &mut self,
        received: Vec<IVec3>,
        chunks_to_generate: &mut Vec<IVec3>,
    ) -> (r: GateOutput)
        ensures
            old(self).wf() ==> final(self).wf(),
            final(self)@.extends(old(self)@),
            final(self)@.chunks == old(self)@.chunks,
            r.to_mesh@ == with_verdict(
                old(self)@.chunks,
                received@ + old(chunks_to_generate)@,
                GateVerdict::Forward,
            ),
            final(chunks_to_generate)@ == with_verdict(
                old(self)@.chunks,
                received@ + old(chunks_to_generate)@,
                GateVerdict::Retry,
            ),
            r.to_initialize@ == fresh(
                all_missing(old(self)@.chunks, received@ + old(chunks_to_generate)@),
                old(self)@.requested,
            ),
            final(self)@.requested == old(self)@.requested.union(
                all_missing(old(self)@.chunks, received@ + old(chunks_to_generate)@).to_set(),
            ),
    {
        let ghost chunks = self@.chunks;
        let ghost requested = self@.requested;
        let mut chunk_positions = received;
        chunk_positions.append(chunks_to_generate);
        let ghost batch = chunk_positions@;
        assert(batch =~= received@ + old(chunks_to_generate)@);
        let mut to_initialize: Vec<IVec3> = Vec::new();
        let mut to_mesh: Vec<IVec3> = Vec::new();
        let mut i: usize = 0;
        assert(batch.take(0) =~= Seq::<IVec3>::empty());
        assert(requested.union(Seq::<IVec3>::empty().to_set()) =~= requested);
        while i < chunk_positions.len()
            invariant
                i <= batch.len(),
                old(self).wf() ==> self.wf(),
                chunk_positions@ == batch,
                self@.chunks == chunks,
                to_mesh@ == with_verdict(chunks, batch.take(i as int), GateVerdict::Forward),
                chunks_to_generate@ == with_verdict(
                    chunks,
                    batch.take(i as int),
                    GateVerdict::Retry,
                ),
                to_initialize@ == fresh(all_missing(chunks, batch.take(i as int)), requested),
                self@.requested == requested.union(
                    all_missing(chunks, batch.take(i as int)).to_set(),
                ),
            decreases batch.len() - i,
        {
            let chunk_pos = chunk_positions[i];
            let ghost seen = all_missing(chunks, batch.take(i as int));
            assert(batch.take(i as int + 1).drop_last() =~= batch.take(i as int));
            assert(batch.take(i as int + 1).last() == chunk_pos);
            let verdict = self.gate_check(
                chunk_pos,
                &mut to_initialize,
                Ghost(seen),
                Ghost(requested),
            );
            match verdict {
                GateVerdict::Forward => {
                    to_mesh.push(chunk_pos);
                },
                GateVerdict::Drop => {},
                GateVerdict::Retry => {
                    chunks_to_generate.push(chunk_pos);
                },
            }
            i += 1;
        }
        assert(batch.take(batch.len() as int) =~= batch);
        GateOutput { to_initialize, to_mesh }
    }

    /// The mesher's step for one chunk: its mesh among the chunks of the
    /// scene, or nothing where the chunk is not stored.
    pub fn generation_processor(&self, chunk_pos: IVec3, templates: &MeshTemplates) -> (r: Option<
        ChunkMesh,
    >)
        requires
            self.wf(),
            templates.wf(),
        ensures
            r is Some <==> self@.chunks.contains_key(chunk_pos),
            r matches Some(mesh) ==> mesh.placements@ == chunk_placements(
                self@.chunks[chunk_pos],
                self@.chunks,
                4096,
            ) && mesh.matches(templates@),
    {
        match self.chunks.get(&chunk_pos) {
            Some(chunk) => Some(
                chunk.generate_mesh(&self.chunks, templates, &self.shape_orientations),
            ),
            None => None,
        }
    }
}

} // verus!
