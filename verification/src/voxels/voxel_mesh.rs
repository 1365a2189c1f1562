//! The templates of the shape variants, and how a template is turned to
//! suit an orientation.
//!
//! A template gives a shape variant seven sub-meshes: one per logical
//! direction, shown where no neighbour covers that face, and one that is
//! always shown. The library reads of a sub-mesh its vertex count and its
//! triangle indices; the vertices themselves stay with the caller, who
//! places them by the transform that `vertex_axes` computes.

use crate::voxels::voxel_shapes::VoxelShape;
use vstd::prelude::*;

verus! {

/// Sub-meshes of a shape's template.
pub const PIECE_COUNT: u8 = 7;

/// The sub-mesh that is shown whatever the neighbours are. The six others
/// go by the index of their logical direction.
pub const PIECE_ALWAYS: u8 = 6;

/// Shape variants, and so templates.
pub const VARIANT_COUNT: usize = 8;

/// The most vertices a sub-mesh may have, so that a full chunk of seven
/// sub-meshes per voxel can still be indexed by `u32`.
pub const MAX_SUB_MESH_VERTICES: u32 = 149_796;

/// What the mesher reads of a template sub-mesh: how many vertices it has,
/// and the triangles over them, three indices each.
pub struct SubMesh {
    pub vertex_count: u32,
    pub indices: Vec<u32>,
}

/// The template of one shape variant.
pub struct VoxelMesh {
    pub always: SubMesh,
    pub north: SubMesh,
    pub south: SubMesh,
    pub east: SubMesh,
    pub west: SubMesh,
    pub top: SubMesh,
    pub bottom: SubMesh,
}

/// Why a set of templates was turned down.
#[derive(Clone, Copy, PartialEq, Eq, Structural, Debug)]
pub enum TemplateError {
    /// There is not one template for each of the eight variants.
    VariantCount,
    /// A sub-mesh has an index that names no vertex of it.
    IndexOutOfRange,
    /// The indices of a sub-mesh do not come in threes.
    PartialTriangle,
    /// A sub-mesh has more than `MAX_SUB_MESH_VERTICES` vertices.
    TooManyVertices,
}

/// The templates of the eight shape variants, checked.
pub struct MeshTemplates {
    shapes: Vec<VoxelMesh>,
}

/// The sub-mesh of a template with the given index.
pub open spec fn piece_of(mesh: VoxelMesh, piece: u8) -> SubMesh {
    if piece == 0 {
        mesh.north
    } else if piece == 1 {
        mesh.south
    } else if piece == 2 {
        mesh.east
    } else if piece == 3 {
        mesh.west
    } else if piece == 4 {
        mesh.top
    } else if piece == 5 {
        mesh.bottom
    } else {
        mesh.always
    }
}

impl SubMesh {
    /// Every index names a vertex.
    pub open spec fn indices_in_range(&self) -> bool {
        forall|k: int| 0 <= k < self.indices@.len() ==> self.indices@[k] < self.vertex_count
    }

    /// The indices come in threes.
    pub open spec fn whole_triangles(&self) -> bool {
        self.indices@.len() % 3 == 0
    }

    /// The vertex count is within `MAX_SUB_MESH_VERTICES`.
    pub open spec fn small(&self) -> bool {
        self.vertex_count <= MAX_SUB_MESH_VERTICES
    }

    pub open spec fn wf(&self) -> bool {
        self.indices_in_range() && self.whole_triangles() && self.small()
    }

    /// A sub-mesh with nothing in it.
    pub fn new() -> (r: Self)
        ensures
            r.vertex_count == 0,
            r.indices@.len() == 0,
            r.wf(),
    {
        SubMesh { vertex_count: 0, indices: Vec::new() }
    }

    fn check_indices_in_range(&self) -> (r: bool)
        ensures
            r == self.indices_in_range(),
    {
        let mut k: usize = 0;
        while k < self.indices.len()
            invariant
                k <= self.indices@.len(),
                forall|j: int| 0 <= j < k ==> self.indices@[j] < self.vertex_count,
            decreases self.indices@.len() - k,
        {
            if self.indices[k] >= self.vertex_count {
                return false;
            }
            k += 1;
        }
        true
    }
}

impl VoxelMesh {
    /// Which of the three faults of a sub-mesh the template has.
    fn faults(&self) -> (r: (bool, bool, bool))
        ensures
            r.0 == mesh_index_out_of_range(*self),
            r.1 == mesh_partial_triangle(*self),
            r.2 == mesh_too_large(*self),
    {
        let mut out_of_range = false;
        let mut partial = false;
        let mut large = false;
        let mut piece: u8 = 0;
        while piece < PIECE_COUNT
            invariant
                piece <= PIECE_COUNT,
                out_of_range == exists|k: u8|
                    k < piece && !(#[trigger] piece_of(*self, k)).indices_in_range(),
                partial == exists|k: u8|
                    k < piece && !(#[trigger] piece_of(*self, k)).whole_triangles(),
                large == exists|k: u8| k < piece && !(#[trigger] piece_of(*self, k)).small(),
            decreases PIECE_COUNT - piece,
        {
            let sub = self.piece(piece);
            if !sub.check_indices_in_range() {
                out_of_range = true;
            }
            if sub.indices.len() % 3 != 0 {
                partial = true;
            }
            if sub.vertex_count > MAX_SUB_MESH_VERTICES {
                large = true;
            }
            piece += 1;
        }
        (out_of_range, partial, large)
    }

    /// The sub-mesh with the given index.
    pub fn piece(&self, piece: u8) -> (r: &SubMesh)
        ensures
            *r == piece_of(*self, piece),
    {
        if piece == 0 {
            &self.north
        } else if piece == 1 {
            &self.south
        } else if piece == 2 {
            &self.east
        } else if piece == 3 {
            &self.west
        } else if piece == 4 {
            &self.top
        } else if piece == 5 {
            &self.bottom
        } else {
            &self.always
        }
    }
}

/// Some sub-mesh of the template has an index that names no vertex.
pub open spec fn mesh_index_out_of_range(mesh: VoxelMesh) -> bool {
    exists|piece: u8| piece < PIECE_COUNT && !(#[trigger] piece_of(mesh, piece)).indices_in_range()
}

/// Some sub-mesh of the template has indices that do not come in threes.
pub open spec fn mesh_partial_triangle(mesh: VoxelMesh) -> bool {
    exists|piece: u8| piece < PIECE_COUNT && !(#[trigger] piece_of(mesh, piece)).whole_triangles()
}

/// Some sub-mesh of the template has too many vertices.
pub open spec fn mesh_too_large(mesh: VoxelMesh) -> bool {
    exists|piece: u8| piece < PIECE_COUNT && !(#[trigger] piece_of(mesh, piece)).small()
}

/// What `MeshTemplates::new` answers to a set of templates: the first of
/// the four faults that the set has, in the order of `TemplateError`, or
/// none.
pub open spec fn template_fault(shapes: Seq<VoxelMesh>) -> Option<TemplateError> {
    if shapes.len() != VARIANT_COUNT {
        Some(TemplateError::VariantCount)
    } else if exists|s: int| 0 <= s < shapes.len() && mesh_index_out_of_range(#[trigger] shapes[s]) {
        Some(TemplateError::IndexOutOfRange)
    } else if exists|s: int| 0 <= s < shapes.len() && mesh_partial_triangle(#[trigger] shapes[s]) {
        Some(TemplateError::PartialTriangle)
    } else if exists|s: int| 0 <= s < shapes.len() && mesh_too_large(#[trigger] shapes[s]) {
        Some(TemplateError::TooManyVertices)
    } else {
        None
    }
}

/// Eight templates, each sub-mesh of each well formed.
pub open spec fn templates_wf(shapes: Seq<VoxelMesh>) -> bool {
    &&& shapes.len() == VARIANT_COUNT
    &&& forall|s: int, piece: u8|
        0 <= s < shapes.len() && piece < PIECE_COUNT ==> (#[trigger] piece_of(shapes[s], piece)).wf()
}

/// A set of templates is well formed just when it has no fault.
pub proof fn lemma_no_fault_is_wf(shapes: Seq<VoxelMesh>)
    ensures
        template_fault(shapes) is None <==> templates_wf(shapes),
{
    if template_fault(shapes) is None {
        assert forall|s: int, piece: u8|
            0 <= s < shapes.len() && piece < PIECE_COUNT implies (#[trigger] piece_of(
            shapes[s],
            piece,
        )).wf() by {
            assert(!mesh_index_out_of_range(shapes[s]));
            assert(!mesh_partial_triangle(shapes[s]));
            assert(!mesh_too_large(shapes[s]));
        }
    }
}

impl View for MeshTemplates {
    type V = Seq<VoxelMesh>;

    closed spec fn view(&self) -> Seq<VoxelMesh> {
        self.shapes@
    }
}

impl MeshTemplates {
    pub open spec fn wf(&self) -> bool {
        templates_wf(self@)
    }

    /// Checks a set of templates, one per shape variant in the order of the
    /// variants, and keeps it if it has no fault.
    pub fn new(shapes: Vec<VoxelMesh>) -> (r: Result<Self, TemplateError>)
        ensures
            r matches Ok(templates) ==> template_fault(shapes@) is None && templates@ == shapes@
                && templates.wf(),
            r matches Err(fault) ==> template_fault(shapes@) == Some(fault),
    {
        if shapes.len() != VARIANT_COUNT {
            return Err(TemplateError::VariantCount);
        }
        let mut out_of_range = false;
        let mut partial = false;
        let mut large = false;
        let mut s: usize = 0;
        while s < shapes.len()
            invariant
                s <= shapes@.len(),
                out_of_range == exists|k: int|
                    0 <= k < s && mesh_index_out_of_range(#[trigger] shapes@[k]),
                partial == exists|k: int| 0 <= k < s && mesh_partial_triangle(#[trigger] shapes@[k]),
                large == exists|k: int| 0 <= k < s && mesh_too_large(#[trigger] shapes@[k]),
            decreases shapes@.len() - s,
        {
            let faults = shapes[s].faults();
            out_of_range = out_of_range || faults.0;
            partial = partial || faults.1;
            large = large || faults.2;
            s += 1;
        }
        if out_of_range {
            Err(TemplateError::IndexOutOfRange)
        } else if partial {
            Err(TemplateError::PartialTriangle)
        } else if large {
            Err(TemplateError::TooManyVertices)
        } else {
            proof {
                lemma_no_fault_is_wf(shapes@);
            }
            Ok(MeshTemplates { shapes })
        }
    }

    /// The template of a shape: that of its variant.
    pub fn get_voxel_mesh(&self, shape: VoxelShape) -> (r: &VoxelMesh)
        requires
            self.wf(),
        ensures
            *r == self@[shape.variant() as int],
    {
        let variant = shape.extract_shape();
        &self.shapes[variant as usize]
    }
}

/// One axis of a placed vertex: which axis of the template vertex it is
/// taken from, and whether its sign is turned.
#[derive(Clone, Copy, PartialEq, Eq, Structural, Debug)]
pub struct SignedAxis {
    pub source: u8,
    pub negate: bool,
}

/// How the vertices and normals of a template are turned to suit an
/// orientation: each axis of the result is an axis of the template, with or
/// against its sign.
#[derive(Clone, Copy, PartialEq, Eq, Structural, Debug)]
pub struct VertexAxes {
    pub x: SignedAxis,
    pub y: SignedAxis,
    pub z: SignedAxis,
}

/// The same axis, against its sign.
pub open spec fn negated(axis: SignedAxis) -> SignedAxis {
    SignedAxis { source: axis.source, negate: !axis.negate }
}

/// Each axis taken from itself, with its sign.
pub open spec fn identity_axes() -> VertexAxes {
    VertexAxes {
        x: SignedAxis { source: 0, negate: false },
        y: SignedAxis { source: 1, negate: false },
        z: SignedAxis { source: 2, negate: false },
    }
}

/// After the transform `axes`, the quarter turn about X: Y takes what Z
/// was, and Z what Y was, negated.
pub open spec fn axes_rotated_x(axes: VertexAxes) -> VertexAxes {
    VertexAxes { x: axes.x, y: axes.z, z: negated(axes.y) }
}

/// After the transform `axes`, the quarter turn about Z: X takes what Y
/// was, and Y what X was, negated.
pub open spec fn axes_rotated_z(axes: VertexAxes) -> VertexAxes {
    VertexAxes { x: axes.y, y: negated(axes.x), z: axes.z }
}

/// The transform of a shape's orientation: the mirrors along X, Y and Z
/// that its flip bits select, then the quarter turn about X, then the one
/// about Z.
pub open spec fn vertex_axes_of(shape: VoxelShape) -> VertexAxes {
    let flipped = VertexAxes {
        x: SignedAxis { source: 0, negate: shape.flips_x() },
        y: SignedAxis { source: 1, negate: shape.flips_y() },
        z: SignedAxis { source: 2, negate: shape.flips_z() },
    };
    let turned = if shape.rotates_x() {
        axes_rotated_x(flipped)
    } else {
        flipped
    };
    if shape.rotates_z() {
        axes_rotated_z(turned)
    } else {
        turned
    }
}

/// The triangles of a shape are wound the other way round: an odd number of
/// its three flip bits is set.
pub open spec fn winding_reversed(shape: VoxelShape) -> bool {
    (shape.flips_x() != shape.flips_y()) != shape.flips_z()
}

/// The three sources are the three axes in an order that takes an odd
/// number of exchanges to reach.
pub open spec fn odd_permutation(axes: VertexAxes) -> bool {
    ||| axes.x.source == 0 && axes.y.source == 2 && axes.z.source == 1
    ||| axes.x.source == 1 && axes.y.source == 0 && axes.z.source == 2
    ||| axes.x.source == 2 && axes.y.source == 1 && axes.z.source == 0
}

/// The transform turns space inside out: as a matrix its determinant is -1.
/// That is so where the exchanges of axes and the turned signs together
/// are odd in number.
pub open spec fn mirrors(axes: VertexAxes) -> bool {
    odd_permutation(axes) != ((axes.x.negate != axes.y.negate) != axes.z.negate)
}

/// The transform of a shape takes each axis of the template once, and it
/// turns space inside out just when the winding is reversed: the triangles
/// of a placed sub-mesh face outward again.
pub proof fn lemma_winding_follows_axes(shape: VoxelShape)
    ensures
        vertex_axes_of(shape).x.source < 3,
        vertex_axes_of(shape).y.source < 3,
        vertex_axes_of(shape).z.source < 3,
        vertex_axes_of(shape).x.source != vertex_axes_of(shape).y.source,
        vertex_axes_of(shape).x.source != vertex_axes_of(shape).z.source,
        vertex_axes_of(shape).y.source != vertex_axes_of(shape).z.source,
        mirrors(vertex_axes_of(shape)) == winding_reversed(shape),
{
}

/// A shape in the default orientation is placed as its template stands.
pub proof fn lemma_default_orientation_keeps_axes(shape: VoxelShape)
    requires
        shape.orientation().data == 0,
    ensures
        vertex_axes_of(shape) == identity_axes(),
        !winding_reversed(shape),
{
    let s = shape.data;
    assert(s & 0b_1111_1000 == 0 ==> s & 0b_0000_1000 != 0b_0000_1000 && s & 0b_0001_0000
        != 0b_0001_0000 && s & 0b_0010_0000 != 0b_0010_0000 && s & 0b_0100_0000 != 0b_0100_0000
        && s & 0b_1000_0000 != 0b_1000_0000) by (bit_vector);
}

/// The vertex transform of a shape.
pub fn vertex_axes(shape: VoxelShape) -> (r: VertexAxes)
    ensures
        r == vertex_axes_of(shape),
{
    let mut x = SignedAxis { source: 0, negate: shape.extract_flip_x() };
    let mut y = SignedAxis { source: 1, negate: shape.extract_flip_y() };
    let mut z = SignedAxis { source: 2, negate: shape.extract_flip_z() };
    if shape.extract_rotate_x() {
        let turned = SignedAxis { source: y.source, negate: !y.negate };
        y = z;
        z = turned;
    }
    if shape.extract_rotate_z() {
        let turned = SignedAxis { source: x.source, negate: !x.negate };
        x = y;
        y = turned;
    }
    VertexAxes { x, y, z }
}

/// Whether the triangles of a shape are wound the other way round.
pub fn is_winding_reversed(shape: VoxelShape) -> (r: bool)
    ensures
        r == winding_reversed(shape),
{
    let flip_x = shape.extract_flip_x();
    let flip_y = shape.extract_flip_y();
    let flip_z = shape.extract_flip_z();
    (flip_x != flip_y) != flip_z
}

} // verus!
