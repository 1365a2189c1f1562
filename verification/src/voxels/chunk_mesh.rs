//! The mesh of a chunk: which sub-meshes its voxels contribute, in what
//! order, and the triangle indices that result.
//!
//! A voxel that is not air contributes the sub-mesh that is always shown,
//! and the sub-mesh of each logical direction whose physical face no
//! neighbour covers. The neighbour beyond a face at the edge of the chunk is
//! looked up in the scene.

use crate::voxels::chunk_store::as_key;
use crate::voxels::chunk_store::chunks_wf;
use crate::voxels::chunk_store::is_key;
use crate::voxels::chunk_store::neighbour_key;
use crate::voxels::chunk_store::scene_voxel;
use crate::voxels::chunk_store::ChunkStore;
use crate::voxels::voxel_chunk::chunk_coordinate;
use crate::voxels::voxel_chunk::in_chunk;
use crate::voxels::voxel_chunk::index_to_pos;
use crate::voxels::voxel_chunk::lemma_index_round_trip;
use crate::voxels::voxel_chunk::linear_index;
use crate::voxels::voxel_chunk::ChunkView;
use crate::voxels::voxel_chunk::VoxelChunk;
use crate::voxels::voxel_data::VoxelData;
use crate::voxels::voxel_mesh::is_winding_reversed;
use crate::voxels::voxel_mesh::piece_of;
use crate::voxels::voxel_mesh::templates_wf;
use crate::voxels::voxel_mesh::winding_reversed;
use crate::voxels::voxel_mesh::MeshTemplates;
use crate::voxels::voxel_mesh::SubMesh;
use crate::voxels::voxel_mesh::VoxelMesh;
use crate::voxels::voxel_mesh::MAX_SUB_MESH_VERTICES;
use crate::voxels::voxel_mesh::PIECE_ALWAYS;
use crate::voxels::voxel_mesh::PIECE_COUNT;
use crate::voxels::voxel_shapes::direction_vector;
use crate::voxels::voxel_shapes::lemma_cube_covers_all;
use crate::voxels::voxel_shapes::oriented_directions;
use crate::voxels::voxel_shapes::ShapeOrientations;
use crate::voxels::voxel_shapes::VoxelDirection;
use crate::voxels::voxel_shapes::VoxelShape;
use glam::IVec3;
use glam::UVec3;
use std::sync::Arc;
use vstd::prelude::*;

verus! {

/// The most sub-meshes in the mesh of one chunk: seven for each voxel.
pub const MAX_PLACEMENTS: usize = 28_672;

/// One sub-mesh of a chunk's mesh: which sub-mesh of which shape's
/// template, at which voxel of the chunk, and of what content.
#[derive(Clone, Copy, PartialEq, Eq, Debug)]
pub struct FacePlacement {
    /// The voxel's position within the chunk.
    pub position: UVec3,
    /// The voxel's shape: its variant selects the template, its orientation
    /// the transform of the vertices.
    pub shape: VoxelShape,
    /// The voxel's content id, by which the vertices are coloured.
    pub id: u16,
    /// The index of the sub-mesh in the template.
    pub piece: u8,
}

/// The mesh of a chunk: its sub-meshes in the order they were placed, and
/// the triangle indices over the vertices of all of them, counted in that
/// order.
pub struct ChunkMesh {
    pub placements: Vec<FacePlacement>,
    pub indices: Vec<u32>,
    pub vertex_count: u32,
}

/// The sub-mesh that a placement instantiates.
pub open spec fn template_of(templates: Seq<VoxelMesh>, placement: FacePlacement) -> SubMesh {
    piece_of(templates[placement.shape.variant() as int], placement.piece)
}

/// The vertices of a sequence of placements, all told.
pub open spec fn vertex_total(templates: Seq<VoxelMesh>, placements: Seq<FacePlacement>) -> int
    decreases placements.len(),
{
    if placements.len() == 0 {
        0
    } else {
        vertex_total(templates, placements.drop_last()) + template_of(
            templates,
            placements.last(),
        ).vertex_count
    }
}

/// The indices of a sub-mesh once its vertices stand behind `offset` others:
/// each index raised by the offset, and the whole in reverse order where the
/// winding is reversed.
pub open spec fn placed_indices(sub: SubMesh, offset: int, reversed: bool) -> Seq<u32> {
    let n = sub.indices@.len() as int;
    Seq::new(
        sub.indices@.len(),
        |k: int|
            if reversed {
                (sub.indices@[n - 1 - k] + offset) as u32
            } else {
                (sub.indices@[k] + offset) as u32
            },
    )
}

/// The triangle indices of a sequence of placements: those of each
/// sub-mesh in turn, placed behind the vertices of the ones before it.
pub open spec fn mesh_indices(templates: Seq<VoxelMesh>, placements: Seq<FacePlacement>) -> Seq<
    u32,
>
    decreases placements.len(),
{
    if placements.len() == 0 {
        Seq::empty()
    } else {
        mesh_indices(templates, placements.drop_last()) + placed_indices(
            template_of(templates, placements.last()),
            vertex_total(templates, placements.drop_last()),
            winding_reversed(placements.last().shape),
        )
    }
}

/// The vertices of well-formed templates stay within what the placements
/// allow for.
pub proof fn lemma_vertex_total_bound(templates: Seq<VoxelMesh>, placements: Seq<FacePlacement>)
    requires
        templates_wf(templates),
        forall|k: int| 0 <= k < placements.len() ==> (#[trigger] placements[k]).piece < PIECE_COUNT,
    ensures
        0 <= vertex_total(templates, placements) <= placements.len() * MAX_SUB_MESH_VERTICES,
    decreases placements.len(),
{
    if placements.len() > 0 {
        let rest = placements.drop_last();
        let last = placements.last();
        lemma_vertex_total_bound(templates, rest);
        let v = last.shape.data;
        assert(v & 0b_0000_0111 < 8) by (bit_vector);
        assert(template_of(templates, last).wf());
        assert(placements.len() * MAX_SUB_MESH_VERTICES == rest.len() * MAX_SUB_MESH_VERTICES
            + MAX_SUB_MESH_VERTICES) by (nonlinear_arith)
            requires
                placements.len() == rest.len() + 1,
        ;
    }
}

impl ChunkMesh {
    /// The indices and the vertex count are those of the placements.
    pub open spec fn matches(&self, templates: Seq<VoxelMesh>) -> bool {
        &&& self.indices@ == mesh_indices(templates, self.placements@)
        &&& self.vertex_count == vertex_total(templates, self.placements@)
        &&& forall|k: int|
            0 <= k < self.placements@.len() ==> (#[trigger] self.placements@[k]).piece
                < PIECE_COUNT
    }

    /// A mesh with nothing in it.
    pub fn new() -> (r: Self)
        ensures
            r.placements@.len() == 0,
            r.indices@.len() == 0,
            r.vertex_count == 0,
            forall|templates: Seq<VoxelMesh>| r.matches(templates),
    {
        let r = ChunkMesh { placements: Vec::new(), indices: Vec::new(), vertex_count: 0 };
        assert forall|templates: Seq<VoxelMesh>| r.matches(templates) by {
            assert(r.indices@ =~= mesh_indices(templates, r.placements@));
        }
        r
    }

    /// Places one more sub-mesh: records the placement, and appends the
    /// indices of its template, raised past the vertices placed so far and
    /// reversed where the shape's winding is.
    pub fn append_mesh(&mut self, templates: &MeshTemplates, placement: FacePlacement)
        requires
            templates.wf(),
            old(self).matches(templates@),
            old(self).placements@.len() < MAX_PLACEMENTS,
            placement.piece < PIECE_COUNT,
        ensures
            final(self).placements@ == old(self).placements@.push(placement),
            final(self).matches(templates@),
    {
        let sub = templates.get_voxel_mesh(placement.shape).piece(placement.piece);
        let reversed = is_winding_reversed(placement.shape);
        let offset = self.vertex_count;
        let n = sub.indices.len();
        let ghost before = self.indices@;
        let ghost placed = placed_indices(*sub, offset as int, reversed);
        proof {
            lemma_vertex_total_bound(templates@, self.placements@);
            let v = placement.shape.data;
            assert(v & 0b_0000_0111 < 8) by (bit_vector);
            assert(sub.wf());
            assert(self.placements@.len() * MAX_SUB_MESH_VERTICES <= 28_671
                * MAX_SUB_MESH_VERTICES) by (nonlinear_arith)
                requires
                    self.placements@.len() <= 28_671,
            ;
        }
        let mut k: usize = 0;
        while k < n
            invariant
                k <= n,
                n == sub.indices@.len(),
                sub.indices_in_range(),
                offset + sub.vertex_count <= u32::MAX,
                placed == placed_indices(*sub, offset as int, reversed),
                self.indices@ == before + placed.subrange(0, k as int),
                self.placements == old(self).placements,
                self.vertex_count == old(self).vertex_count,
            decreases n - k,
        {
            let index = if reversed {
                sub.indices[n - 1 - k]
            } else {
                sub.indices[k]
            };
            self.indices.push(index + offset);
            assert(self.indices@ =~= before + placed.subrange(0, k + 1));
            k += 1;
        }
        self.placements.push(placement);
        self.vertex_count = offset + sub.vertex_count;
        proof {
            let all = self.placements@;
            assert(all.drop_last() =~= old(self).placements@);
            assert(all.last() == placement);
            assert(placed.subrange(0, n as int) =~= placed);
        }
    }
}

/// The voxel next to one of a chunk: the chunk's own where the position lies
/// inside it, else that of the scene.
pub open spec fn neighbour_voxel(
    chunk: ChunkView,
    chunks: Map<IVec3, ChunkView>,
    x: int,
    y: int,
    z: int,
) -> Option<VoxelData> {
    match chunk.voxel_at_global(x, y, z) {
        Some(voxel) => Some(voxel),
        None => scene_voxel(chunks, x, y, z),
    }
}

/// The face of the voxel at place `index` of the chunk that points in the
/// physical direction `direction` is to be shown: the voxel beyond it is
/// missing, or air, or does not cover the face.
pub open spec fn face_visible(
    chunk: ChunkView,
    chunks: Map<IVec3, ChunkView>,
    index: int,
    direction: VoxelDirection,
) -> bool {
    let voxel = chunk.voxels[index];
    let step = direction_vector(direction.data);
    let x = chunk.position.x * 16 + index / 256 + step.x;
    let y = chunk.position.y * 16 + (index % 256) / 16 + step.y;
    let z = chunk.position.z * 16 + index % 16 + step.z;
    match neighbour_voxel(chunk, chunks, x, y, z) {
        None => true,
        Some(neighbour) => neighbour.id == 0 || !neighbour.shape.covers(
            direction.flipped(),
            (voxel.shape, direction),
        ),
    }
}

/// The placement of a sub-mesh at the voxel at place `index` of a chunk.
pub open spec fn placement_at(chunk: ChunkView, index: int, piece: u8) -> FacePlacement {
    FacePlacement {
        position: UVec3 {
            x: (index / 256) as u32,
            y: ((index % 256) / 16) as u32,
            z: (index % 16) as u32,
        },
        shape: chunk.voxels[index].shape,
        id: chunk.voxels[index].id,
        piece,
    }
}

/// What a solid voxel contributes once its first `count` logical directions
/// are looked at: the sub-mesh that is always shown, then, in the order of
/// the directions, the sub-mesh of each whose physical face is visible.
pub open spec fn voxel_faces(
    chunk: ChunkView,
    chunks: Map<IVec3, ChunkView>,
    index: int,
    count: int,
) -> Seq<FacePlacement>
    decreases count,
{
    if count <= 0 {
        seq![placement_at(chunk, index, PIECE_ALWAYS)]
    } else {
        let logical = count - 1;
        let physical = oriented_directions(chunk.voxels[index].shape.orientation())[logical];
        let before = voxel_faces(chunk, chunks, index, logical);
        if face_visible(chunk, chunks, index, physical) {
            before.push(placement_at(chunk, index, logical as u8))
        } else {
            before
        }
    }
}

/// What the voxel at place `index` contributes to the mesh: nothing where
/// it is air.
pub open spec fn voxel_placements(chunk: ChunkView, chunks: Map<IVec3, ChunkView>, index: int) -> Seq<
    FacePlacement,
> {
    if chunk.voxels[index].id == 0 {
        Seq::empty()
    } else {
        voxel_faces(chunk, chunks, index, 6)
    }
}

/// The placements of the first `count` voxels of a chunk, in the order of
/// their places.
pub open spec fn chunk_placements(chunk: ChunkView, chunks: Map<IVec3, ChunkView>, count: int) -> Seq<
    FacePlacement,
>
    decreases count,
{
    if count <= 0 {
        Seq::empty()
    } else {
        chunk_placements(chunk, chunks, count - 1) + voxel_placements(chunk, chunks, count - 1)
    }
}

/// A voxel contributes at most seven sub-meshes, each with an index below
/// seven.
pub proof fn lemma_voxel_faces_bound(
    chunk: ChunkView,
    chunks: Map<IVec3, ChunkView>,
    index: int,
    count: int,
)
    requires
        0 <= count <= 6,
    ensures
        1 <= voxel_faces(chunk, chunks, index, count).len() <= count + 1,
        forall|k: int|
            0 <= k < voxel_faces(chunk, chunks, index, count).len() ==> (#[trigger] voxel_faces(
                chunk,
                chunks,
                index,
                count,
            )[k]).piece < PIECE_COUNT,
    decreases count,
{
    if count > 0 {
        lemma_voxel_faces_bound(chunk, chunks, index, count - 1);
    }
}

/// A chunk of air has no mesh: none of its voxels contributes anything.
pub proof fn lemma_air_has_no_mesh(
    chunk: ChunkView,
    chunks: Map<IVec3, ChunkView>,
    templates: Seq<VoxelMesh>,
    count: int,
)
    requires
        chunk.wf(),
        chunk.is_empty,
        0 <= count <= 4096,
    ensures
        chunk_placements(chunk, chunks, count).len() == 0,
        mesh_indices(templates, chunk_placements(chunk, chunks, count)).len() == 0,
        vertex_total(templates, chunk_placements(chunk, chunks, count)) == 0,
    decreases count,
{
    if count > 0 {
        lemma_air_has_no_mesh(chunk, chunks, templates, count - 1);
        assert(chunk.voxels[count - 1].id == 0);
    }
}

/// Between two solid cubes no face is shown: a cube that has a solid cube
/// beyond one of its faces does not show that face, whatever the
/// orientations of the two.
pub proof fn lemma_buried_face_is_hidden(
    chunk: ChunkView,
    chunks: Map<IVec3, ChunkView>,
    index: int,
    direction: VoxelDirection,
)
    requires
        direction.wf(),
    ensures
        ({
            let step = direction_vector(direction.data);
            let x = chunk.position.x * 16 + index / 256 + step.x;
            let y = chunk.position.y * 16 + (index % 256) / 16 + step.y;
            let z = chunk.position.z * 16 + index % 16 + step.z;
            neighbour_voxel(chunk, chunks, x, y, z) matches Some(neighbour) && neighbour.id != 0
                && neighbour.shape.variant() == 0
        }) ==> !face_visible(chunk, chunks, index, direction),
{
    let step = direction_vector(direction.data);
    let x = chunk.position.x * 16 + index / 256 + step.x;
    let y = chunk.position.y * 16 + (index % 256) / 16 + step.y;
    let z = chunk.position.z * 16 + index % 16 + step.z;
    if let Some(neighbour) = neighbour_voxel(chunk, chunks, x, y, z) {
        if neighbour.shape.variant() == 0 {
            lemma_cube_covers_all(
                neighbour.shape,
                direction.flipped(),
                (chunk.voxels[index].shape, direction),
            );
        }
    }
}

/// `neighbour` is the chunk that the scene has one step from
/// `position` in the direction with index `direction`, if it has one.
pub open spec fn is_neighbour(
    neighbour: Option<Arc<VoxelChunk>>,
    position: IVec3,
    direction: int,
    chunks: Map<IVec3, ChunkView>,
) -> bool {
    let key = neighbour_key(position, direction);
    if is_key(key) && chunks.contains_key(as_key(key)) {
        neighbour matches Some(chunk) && chunk@ == chunks[as_key(key)]
    } else {
        neighbour is None
    }
}

/// `neighbours` holds each of the six chunks around `position`
/// that the scene has, by the index of the direction it lies in.
pub open spec fn are_neighbours(
    neighbours: Seq<Option<Arc<VoxelChunk>>>,
    position: IVec3,
    chunks: Map<IVec3, ChunkView>,
) -> bool {
    &&& neighbours.len() == 6
    &&& forall|d: int| 0 <= d < 6 ==> is_neighbour(#[trigger] neighbours[d], position, d, chunks)
}

/// The six chunks around a position, as far as the store has
/// them.
fn fetch_neighbours(position: IVec3, scene_chunks: &ChunkStore) -> (r: Vec<Option<Arc<VoxelChunk>>>)
    ensures
        are_neighbours(r@, position, scene_chunks@),
{
    let mut neighbours: Vec<Option<Arc<VoxelChunk>>> = Vec::new();
    let mut d: u8 = 0;
    while d < 6
        invariant
            d <= 6,
            neighbours@.len() == d,
            forall|k: int|
                0 <= k < d ==> is_neighbour(#[trigger] neighbours@[k], position, k, scene_chunks@),
        decreases 6 - d,
    {
        let step = VoxelDirection { data: d }.as_vec();
        let x = position.x.checked_add(step.x);
        let y = position.y.checked_add(step.y);
        let z = position.z.checked_add(step.z);
        let neighbour = match (x, y, z) {
            (Some(x), Some(y), Some(z)) => scene_chunks.get(&IVec3 { x, y, z }),
            _ => None,
        };
        let ghost before = neighbours@;
        neighbours.push(neighbour);
        assert(forall|k: int| 0 <= k < d ==> neighbours@[k] == before[k]);
        d += 1;
    }
    neighbours
}

/// Whether the face of a voxel that points in a physical direction is to
/// be shown.
fn face_check(
    voxel: &VoxelData,
    neighbours: &Vec<Option<Arc<VoxelChunk>>>,
    chunk: &VoxelChunk,
    position: &UVec3,
    direction: VoxelDirection,
    masks: &ShapeOrientations,
    Ghost(chunks): Ghost<Map<IVec3, ChunkView>>,
) -> (r: bool)
    requires
        masks.wf(),
        chunk@.wf(),
        chunks_wf(chunks),
        are_neighbours(neighbours@, chunk@.position, chunks),
        in_chunk(position.x as int, position.y as int, position.z as int),
        direction.wf(),
        *voxel == chunk@.voxels[linear_index(
            position.x as int,
            position.y as int,
            position.z as int,
        )],
    ensures
        r == face_visible(
            chunk@,
            chunks,
            linear_index(position.x as int, position.y as int, position.z as int),
            direction,
        ),
{
    let step = direction.as_vec();
    let x: i32 = position.x as i32 + step.x;
    let y: i32 = position.y as i32 + step.y;
    let z: i32 = position.z as i32 + step.z;
    let ghost index = linear_index(position.x as int, position.y as int, position.z as int);
    let ghost gx = chunk@.position.x * 16 + x;
    let ghost gy = chunk@.position.y * 16 + y;
    let ghost gz = chunk@.position.z * 16 + z;
    proof {
        lemma_index_round_trip(
            position.x as int,
            position.y as int,
            position.z as int,
        );
    }
    let inside = 0 <= x && x < 16 && 0 <= y && y < 16 && 0 <= z && z < 16;
    let neighbour: Option<VoxelData> = if inside {
        let local = UVec3 { x: x as u32, y: y as u32, z: z as u32 };
        Some(*chunk.voxel_at(&local))
    } else {
        let ghost key = neighbour_key(chunk@.position, direction.data as int);
        proof {
            assert(is_neighbour(
                neighbours@[direction.data as int],
                chunk@.position,
                direction.data as int,
                chunks,
            ));
            assert(chunk_coordinate(gx) == key.0);
            assert(chunk_coordinate(gy) == key.1);
            assert(chunk_coordinate(gz) == key.2);
        }
        match &neighbours[direction.data as usize] {
            Some(beyond) => {
                let wx: i32 = if x < 0 {
                    x + 16
                } else if x >= 16 {
                    x - 16
                } else {
                    x
                };
                let wy: i32 = if y < 0 {
                    y + 16
                } else if y >= 16 {
                    y - 16
                } else {
                    y
                };
                let wz: i32 = if z < 0 {
                    z + 16
                } else if z >= 16 {
                    z - 16
                } else {
                    z
                };
                assert(gx % 16 == wx && gy % 16 == wy && gz % 16 == wz);
                let local = UVec3 { x: wx as u32, y: wy as u32, z: wz as u32 };
                Some(*beyond.voxel_at(&local))
            },
            None => None,
        }
    };
    assert(neighbour == neighbour_voxel(chunk@, chunks, gx, gy, gz));
    match neighbour {
        None => true,
        Some(neighbour) => neighbour.id == 0 || !masks.face_contains(
            neighbour.shape,
            direction.flip(),
            (voxel.shape, direction),
        ),
    }
}

/// Places the sub-meshes of one solid voxel: the one that is always shown,
/// then that of each logical direction whose physical face is visible.
fn generate_faces(
    voxel: &VoxelData,
    neighbours: &Vec<Option<Arc<VoxelChunk>>>,
    chunk: &VoxelChunk,
    position: &UVec3,
    templates: &MeshTemplates,
    masks: &ShapeOrientations,
    mesh: &mut ChunkMesh,
    Ghost(chunks): Ghost<Map<IVec3, ChunkView>>,
)
    requires
        masks.wf(),
        chunk@.wf(),
        chunks_wf(chunks),
        are_neighbours(neighbours@, chunk@.position, chunks),
        in_chunk(position.x as int, position.y as int, position.z as int),
        *voxel == chunk@.voxels[linear_index(
            position.x as int,
            position.y as int,
            position.z as int,
        )],
        templates.wf(),
        old(mesh).matches(templates@),
        old(mesh).placements@.len() + 7 <= MAX_PLACEMENTS,
    ensures
        final(mesh).placements@ == old(mesh).placements@ + voxel_faces(
            chunk@,
            chunks,
            linear_index(position.x as int, position.y as int, position.z as int),
            6,
        ),
        final(mesh).matches(templates@),
{
    let ghost index = linear_index(position.x as int, position.y as int, position.z as int);
    proof {
        lemma_index_round_trip(
            position.x as int,
            position.y as int,
            position.z as int,
        );
    }
    mesh.append_mesh(
        templates,
        FacePlacement { position: *position, shape: voxel.shape, id: voxel.id, piece: PIECE_ALWAYS },
    );
    assert(mesh.placements@ =~= old(mesh).placements@ + voxel_faces(chunk@, chunks, index, 0));
    let orientations = VoxelDirection::get_oriented_directions(voxel.shape.extract_orientation());
    let mut logical: u8 = 0;
    while logical < 6
        invariant
            logical <= 6,
            masks.wf(),
            chunk@.wf(),
            chunks_wf(chunks),
            are_neighbours(neighbours@, chunk@.position, chunks),
            in_chunk(position.x as int, position.y as int, position.z as int),
            index == linear_index(position.x as int, position.y as int, position.z as int),
            0 <= index < 4096,
            index / 256 == position.x,
            (index % 256) / 16 == position.y,
            index % 16 == position.z,
            *voxel == chunk@.voxels[index],
            templates.wf(),
            orientations.directions@ == oriented_directions(voxel.shape.orientation()),
            orientations.wf(),
            mesh.matches(templates@),
            old(mesh).placements@.len() + 7 <= MAX_PLACEMENTS,
            mesh.placements@ == old(mesh).placements@ + voxel_faces(
                chunk@,
                chunks,
                index,
                logical as int,
            ),
            voxel_faces(chunk@, chunks, index, logical as int).len() <= logical + 1,
        decreases 6 - logical,
    {
        let physical = orientations.get_direction(VoxelDirection { data: logical });
        proof {
            lemma_voxel_faces_bound(chunk@, chunks, index, logical as int + 1);
        }
        if face_check(voxel, neighbours, chunk, position, physical, masks, Ghost(chunks)) {
            mesh.append_mesh(
                templates,
                FacePlacement { position: *position, shape: voxel.shape, id: voxel.id, piece: logical },
            );
            assert(mesh.placements@ =~= old(mesh).placements@ + voxel_faces(
                chunk@,
                chunks,
                index,
                logical as int + 1,
            ));
        }
        logical += 1;
    }
}

impl VoxelChunk {
    /// The mesh of the chunk among the chunks of a scene: for each voxel
    /// that is not air, in the order of the voxels' places, the sub-meshes
    /// that it shows.
    pub fn generate_mesh(
        &self,
        scene_chunks: &ChunkStore,
        templates: &MeshTemplates,
        masks: &ShapeOrientations,
    ) -> (r: ChunkMesh)
        requires
            masks.wf(),
            self@.wf(),
            scene_chunks.wf(),
            templates.wf(),
        ensures
            r.placements@ == chunk_placements(self@, scene_chunks@, 4096),
            r.matches(templates@),
    {
        let neighbours = fetch_neighbours(self.position(), scene_chunks);
        let mut mesh = ChunkMesh::new();
        assert(mesh.placements@ =~= chunk_placements(self@, scene_chunks@, 0));
        let mut index: u32 = 0;
        while index < 4096
            invariant
                index <= 4096,
                masks.wf(),
                self@.wf(),
                scene_chunks.wf(),
                templates.wf(),
                are_neighbours(neighbours@, self@.position, scene_chunks@),
                mesh.matches(templates@),
                mesh.placements@ == chunk_placements(self@, scene_chunks@, index as int),
                mesh.placements@.len() <= 7 * index,
            decreases 4096 - index,
        {
            let pos = index_to_pos(index);
            let voxel = self.voxel_at(&pos);
            if voxel.id != 0 {
                proof {
                    lemma_voxel_faces_bound(self@, scene_chunks@, index as int, 6);
                }
                generate_faces(
                    voxel,
                    &neighbours,
                    self,
                    &pos,
                    templates,
                    masks,
                    &mut mesh,
                    Ghost(scene_chunks@),
                );
            } else {
                assert(mesh.placements@ =~= chunk_placements(
                    self@,
                    scene_chunks@,
                    index as int + 1,
                ));
            }
            index += 1;
        }
        mesh
    }
}

} // verus!
