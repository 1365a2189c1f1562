//! The packed shape byte, its orientation bits, and the six directions.
//!
//! A shape byte holds the variant in bits 0 to 2 and the orientation in bits
//! 3 to 7: flip X, flip Y, flip Z, rotate X, rotate Z.

pub mod occlusion_shapes;
pub mod voxel_directions;
pub mod voxel_orientations;
pub mod voxel_shape;

use crate::voxels::voxel_shapes::occlusion_shapes::face_mask;
use crate::voxels::voxel_shapes::occlusion_shapes::get_shape_permutations;
use crate::voxels::voxel_shapes::occlusion_shapes::lemma_cube_is_full;
use crate::voxels::voxel_shapes::occlusion_shapes::lemma_table_entry;
use crate::voxels::voxel_shapes::occlusion_shapes::orient_shape;
use crate::voxels::voxel_shapes::occlusion_shapes::shape_permutations;
use glam::IVec3;
use vstd::prelude::*;

verus! {

/// Bits 0 to 2: the shape variant.
pub const VARIANT_MASK: u8 = 0b_0000_0111;

/// Bits 3 to 7: the orientation.
pub const ORIENTATION_MASK: u8 = 0b_1111_1000;

pub const FLIP_X_BIT: u8 = 0b_0000_1000;

pub const FLIP_Y_BIT: u8 = 0b_0001_0000;

pub const FLIP_Z_BIT: u8 = 0b_0010_0000;

pub const ROTATE_X_BIT: u8 = 0b_0100_0000;

pub const ROTATE_Z_BIT: u8 = 0b_1000_0000;

/// One of the six cardinal directions, by index: north 0, south 1, east 2,
/// west 3, up 4, down 5. Opposite directions are neighbours in this order.
#[derive(Copy, Clone, Eq, PartialEq, Structural, Debug, Hash)]
pub struct VoxelDirection {
    pub data: u8,
}

/// The five orientation bits of a shape byte, in place (bits 3 to 7).
#[derive(Copy, Clone, Eq, PartialEq, Structural, Debug, Hash)]
pub struct VoxelOrientation {
    pub data: u8,
}

/// A shape variant together with its orientation, in one byte.
#[derive(Copy, Clone, Eq, PartialEq, Structural, Debug, Hash)]
pub struct VoxelShape {
    pub data: u8,
}

/// For each logical direction of a shape, the physical direction that it
/// points in once the shape is oriented.
pub struct OrientedVoxelDirections {
    pub directions: [VoxelDirection; 6],
}

/// The occlusion masks of every shape byte, built once and then only read.
pub struct ShapeOrientations {
    table: [u8; 1536],
}

impl ShapeOrientations {
    /// The table holds the mask of each shape byte and direction.
    pub closed spec fn wf(&self) -> bool {
        self.table@ == shape_permutations()
    }

    /// Builds the table.
    pub fn new() -> (r: Self)
        ensures
            r.wf(),
    {
        ShapeOrientations { table: get_shape_permutations() }
    }

    /// The mask of a face of a shape, read from the table.
    pub fn get_face_shape(&self, shape: VoxelShape, direction: VoxelDirection) -> (r: u8)
        requires
            self.wf(),
            direction.wf(),
        ensures
            r == shape.face_shape(direction),
    {
        proof {
            lemma_table_entry(shape.data, direction.data);
        }
        self.table[shape.data as usize * 6 + direction.data as usize]
    }

    /// Whether face `face` of `shape` covers all of face `other.1` of
    /// `other.0`, by the masks of the table.
    pub fn face_contains(
        &self,
        shape: VoxelShape,
        face: VoxelDirection,
        other: (VoxelShape, VoxelDirection),
    ) -> (r: bool)
        requires
            self.wf(),
            face.wf(),
            other.1.wf(),
        ensures
            r == shape.covers(face, other),
    {
        let other_shape = self.get_face_shape(other.0, other.1);
        self.get_face_shape(shape, face) & other_shape == other_shape
    }
}

/// The unit vector of the direction with index `data`.
pub open spec fn direction_vector(data: u8) -> IVec3
    recommends
        data < 6,
{
    if data == 0 {
        IVec3 { x: 0, y: 0, z: 1 }
    } else if data == 1 {
        IVec3 { x: 0, y: 0, z: -1i32 }
    } else if data == 2 {
        IVec3 { x: 1, y: 0, z: 0 }
    } else if data == 3 {
        IVec3 { x: -1i32, y: 0, z: 0 }
    } else if data == 4 {
        IVec3 { x: 0, y: 1, z: 0 }
    } else {
        IVec3 { x: 0, y: -1i32, z: 0 }
    }
}

/// The six directions in index order.
pub open spec fn all_directions() -> Seq<VoxelDirection> {
    Seq::new(6, |i: int| VoxelDirection { data: i as u8 })
}

/// The quarter turn about Z on a table of directions: east and west take the
/// places of down and up.
pub open spec fn directions_turned_z(r: Seq<VoxelDirection>) -> Seq<VoxelDirection> {
    seq![r[0], r[1], r[5], r[4], r[2], r[3]]
}

/// The quarter turn about X on a table of directions: north and south take
/// the places of up and down.
pub open spec fn directions_turned_x(r: Seq<VoxelDirection>) -> Seq<VoxelDirection> {
    seq![r[4], r[5], r[2], r[3], r[1], r[0]]
}

/// The table with the entries at `i` and `i + 1` exchanged.
pub open spec fn directions_swapped(r: Seq<VoxelDirection>, i: int) -> Seq<VoxelDirection> {
    r.update(i, r[i + 1]).update(i + 1, r[i])
}

/// The table of physical directions of an orientation: the six directions,
/// turned about Z, then about X, then mirrored along Z, Y and X, each step
/// taken where the orientation has its bit set.
pub open spec fn oriented_directions(orientation: VoxelOrientation) -> Seq<VoxelDirection> {
    let r0 = all_directions();
    let r1 = if orientation.rotates_z() {
        directions_turned_z(r0)
    } else {
        r0
    };
    let r2 = if orientation.rotates_x() {
        directions_turned_x(r1)
    } else {
        r1
    };
    let r3 = if orientation.flips_z() {
        directions_swapped(r2, 0)
    } else {
        r2
    };
    let r4 = if orientation.flips_y() {
        directions_swapped(r3, 4)
    } else {
        r3
    };
    if orientation.flips_x() {
        directions_swapped(r4, 2)
    } else {
        r4
    }
}

/// The direction opposite to the opposite of a direction is the direction
/// itself.
pub proof fn lemma_flip_involution(direction: VoxelDirection)
    ensures
        direction.flipped().flipped() == direction,
{
}

/// Flipping exchanges the two directions of a pair, so it turns the unit
/// vector around.
pub proof fn lemma_flip_negates_vector(direction: VoxelDirection)
    requires
        direction.wf(),
    ensures
        direction.flipped().wf(),
        direction.flipped() != direction,
        direction_vector(direction.flipped().data).x == -direction_vector(direction.data).x,
        direction_vector(direction.flipped().data).y == -direction_vector(direction.data).y,
        direction_vector(direction.flipped().data).z == -direction_vector(direction.data).z,
{
}

/// Attaching an orientation to a shape and extracting it again gives the
/// orientation bits back, and leaves the variant as it was.
pub proof fn lemma_orientation_round_trip(shape: VoxelShape, orientation: VoxelOrientation)
    ensures
        shape.with_orientation(orientation).orientation().data == orientation.data
            & ORIENTATION_MASK,
        orientation.wf() ==> shape.with_orientation(orientation).orientation() == orientation,
        orientation.wf() ==> shape.with_orientation(orientation).variant() == shape.variant(),
        shape.with_orientation(shape.orientation()) == shape,
{
    let s = shape.data;
    let o = orientation.data;
    assert((((s & 0b_0000_0111) | o) & 0b_1111_1000) == o & 0b_1111_1000) by (bit_vector);
    assert(o & 0b_0000_0111 == 0 ==> o & 0b_1111_1000 == o) by (bit_vector);
    assert(o & 0b_0000_0111 == 0 ==> (((s & 0b_0000_0111) | o) & 0b_0000_0111) == s
        & 0b_0000_0111) by (bit_vector);
    assert(((s & 0b_0000_0111) | (s & 0b_1111_1000)) == s) by (bit_vector);
}

/// The layout of a shape byte: the variant counts ones, and each orientation
/// bit has its own place value.
pub proof fn lemma_shape_layout(shape: VoxelShape)
    ensures
        shape.variant() < 8,
        shape.orientation().wf(),
        shape.data == shape.variant() + (if shape.flips_x() {
            8int
        } else {
            0int
        }) + (if shape.flips_y() {
            16int
        } else {
            0int
        }) + (if shape.flips_z() {
            32int
        } else {
            0int
        }) + (if shape.rotates_x() {
            64int
        } else {
            0int
        }) + (if shape.rotates_z() {
            128int
        } else {
            0int
        }),
        shape.flips_x() == shape.orientation().flips_x(),
        shape.flips_y() == shape.orientation().flips_y(),
        shape.flips_z() == shape.orientation().flips_z(),
        shape.rotates_x() == shape.orientation().rotates_x(),
        shape.rotates_z() == shape.orientation().rotates_z(),
{
    let s = shape.data;
    assert(s & 0b_0000_0111 < 8) by (bit_vector);
    assert((s & 0b_1111_1000) & 0b_0000_0111 == 0) by (bit_vector);
    assert(s == (s & 0b_0000_0111) + (s & 0b_0000_1000) + (s & 0b_0001_0000) + (s & 0b_0010_0000)
        + (s & 0b_0100_0000) + (s & 0b_1000_0000)) by (bit_vector);
    assert((s & 0b_0000_1000 == 0 || s & 0b_0000_1000 == 0b_0000_1000) && (s & 0b_0001_0000 == 0
        || s & 0b_0001_0000 == 0b_0001_0000) && (s & 0b_0010_0000 == 0 || s & 0b_0010_0000
        == 0b_0010_0000) && (s & 0b_0100_0000 == 0 || s & 0b_0100_0000 == 0b_0100_0000) && (s
        & 0b_1000_0000 == 0 || s & 0b_1000_0000 == 0b_1000_0000)) by (bit_vector);
    assert((s & 0b_1111_1000) & 0b_0000_1000 == s & 0b_0000_1000 && (s & 0b_1111_1000)
        & 0b_0001_0000 == s & 0b_0001_0000 && (s & 0b_1111_1000) & 0b_0010_0000 == s
        & 0b_0010_0000 && (s & 0b_1111_1000) & 0b_0100_0000 == s & 0b_0100_0000 && (s
        & 0b_1111_1000) & 0b_1000_0000 == s & 0b_1000_0000) by (bit_vector);
}

/// The table of an orientation sends the six logical directions to the six
/// physical directions, one to one.
pub proof fn lemma_oriented_directions_permute(orientation: VoxelOrientation)
    ensures
        oriented_directions(orientation).len() == 6,
        forall|i: int| 0 <= i < 6 ==> (#[trigger] oriented_directions(orientation)[i]).wf(),
        forall|i: int, j: int|
            0 <= i < j < 6 ==> oriented_directions(orientation)[i] != oriented_directions(
                orientation,
            )[j],
{
    let r0 = all_directions();
    let r1 = if orientation.rotates_z() {
        directions_turned_z(r0)
    } else {
        r0
    };
    let r2 = if orientation.rotates_x() {
        directions_turned_x(r1)
    } else {
        r1
    };
    let r3 = if orientation.flips_z() {
        directions_swapped(r2, 0)
    } else {
        r2
    };
    let r4 = if orientation.flips_y() {
        directions_swapped(r3, 4)
    } else {
        r3
    };
    let r5 = oriented_directions(orientation);
    assert(is_permutation(r0));
    assert(is_permutation(r1));
    assert(is_permutation(r2));
    assert(is_permutation(r3));
    assert(is_permutation(r4));
    assert(is_permutation(r5));
}

/// A table of six entries that holds each of the six directions once.
pub open spec fn is_permutation(r: Seq<VoxelDirection>) -> bool {
    &&& r.len() == 6
    &&& r[0].wf() && r[1].wf() && r[2].wf() && r[3].wf() && r[4].wf() && r[5].wf()
    &&& r[0] != r[1] && r[0] != r[2] && r[0] != r[3] && r[0] != r[4] && r[0] != r[5]
    &&& r[1] != r[2] && r[1] != r[3] && r[1] != r[4] && r[1] != r[5]
    &&& r[2] != r[3] && r[2] != r[4] && r[2] != r[5]
    &&& r[3] != r[4] && r[3] != r[5]
    &&& r[4] != r[5]
}

/// A cube, whatever its orientation, covers any face of any shape: a face
/// whose mask is full contains every mask.
pub proof fn lemma_cube_covers_all(
    cube: VoxelShape,
    face: VoxelDirection,
    other: (VoxelShape, VoxelDirection),
)
    requires
        cube.variant() == 0,
        face.wf(),
    ensures
        cube.face_shape(face) == 0xFF,
        cube.covers(face, other),
{
    lemma_cube_is_full(cube.data, face.data);
    let m = other.0.face_shape(other.1);
    assert(0xFFu8 & m == m) by (bit_vector);
}

/// Whatever the shape, a face with a full mask covers every face, and a face
/// with an empty mask is covered by every face.
pub proof fn lemma_full_covers_and_empty_is_covered(
    shape: VoxelShape,
    face: VoxelDirection,
    other: (VoxelShape, VoxelDirection),
)
    ensures
        shape.face_shape(face) == 0xFF ==> shape.covers(face, other),
        other.0.face_shape(other.1) == 0 ==> shape.covers(face, other),
{
    let a = shape.face_shape(face);
    let m = other.0.face_shape(other.1);
    assert(0xFFu8 & m == m) by (bit_vector);
    assert(a & 0u8 == 0u8) by (bit_vector);
}

impl OrientedVoxelDirections {
    /// Every entry is one of the six directions.
    pub open spec fn wf(&self) -> bool {
        forall|i: int| 0 <= i < 6 ==> (#[trigger] self.directions[i]).wf()
    }

    pub fn new(directions: [VoxelDirection; 6]) -> (r: Self)
        ensures
            r.directions == directions,
    {
        Self { directions }
    }

    pub fn get_direction(&self, direction: VoxelDirection) -> (r: VoxelDirection)
        requires
            direction.wf(),
        ensures
            r == self.directions[direction.data as int],
    {
        self.directions[direction.data as usize]
    }
}

impl VoxelDirection {
    /// The index names one of the six directions.
    pub open spec fn wf(&self) -> bool {
        self.data < 6
    }

    /// The opposite direction: the other index of the pair.
    pub open spec fn flipped(&self) -> VoxelDirection {
        VoxelDirection {
            data: if self.data % 2 == 0 {
                (self.data + 1) as u8
            } else {
                (self.data - 1) as u8
            },
        }
    }

    pub fn as_vec(&self) -> (r: IVec3)
        requires
            self.wf(),
        ensures
            r == direction_vector(self.data),
    {
        if self.data == 0 {
            IVec3 { x: 0, y: 0, z: 1 }
        } else if self.data == 1 {
            IVec3 { x: 0, y: 0, z: -1 }
        } else if self.data == 2 {
            IVec3 { x: 1, y: 0, z: 0 }
        } else if self.data == 3 {
            IVec3 { x: -1, y: 0, z: 0 }
        } else if self.data == 4 {
            IVec3 { x: 0, y: 1, z: 0 }
        } else {
            IVec3 { x: 0, y: -1, z: 0 }
        }
    }

    pub fn flip(&self) -> (r: VoxelDirection)
        ensures
            r == self.flipped(),
            self.wf() ==> r.wf(),
    {
        let data = self.data;
        assert(data & 1 == data % 2) by (bit_vector);
        VoxelDirection {
            data: if data & 1 == 0 {
                data + 1
            } else {
                data - 1
            },
        }
    }

    pub fn get_oriented_directions(orientation: VoxelOrientation) -> (r: OrientedVoxelDirections)
        ensures
            r.directions@ == oriented_directions(orientation),
            r.wf(),
    {
        let north = VoxelDirection { data: 0 };
        let south = VoxelDirection { data: 1 };
        let east = VoxelDirection { data: 2 };
        let west = VoxelDirection { data: 3 };
        let up = VoxelDirection { data: 4 };
        let down = VoxelDirection { data: 5 };
        let mut r = [north, south, east, west, up, down];
        assert(r@ =~= all_directions());
        if orientation.extract_rotate_z() {
            r = [r[0], r[1], r[5], r[4], r[2], r[3]];
        }
        if orientation.extract_rotate_x() {
            r = [r[4], r[5], r[2], r[3], r[1], r[0]];
        }
        if orientation.extract_flip_z() {
            r = [r[1], r[0], r[2], r[3], r[4], r[5]];
        }
        if orientation.extract_flip_y() {
            r = [r[0], r[1], r[2], r[3], r[5], r[4]];
        }
        if orientation.extract_flip_x() {
            r = [r[0], r[1], r[3], r[2], r[4], r[5]];
        }
        assert(r@ =~= oriented_directions(orientation));
        OrientedVoxelDirections::new(r)
    }
}

impl Default for VoxelDirection {
    fn default() -> (r: Self)
        ensures
            r.data == 0,
    {
        VoxelDirection { data: 0 }
    }
}

impl VoxelShape {
    /// The variant index, 0 to 7.
    pub open spec fn variant(&self) -> u8 {
        self.data & VARIANT_MASK
    }

    /// The orientation bits, in place.
    pub open spec fn orientation(&self) -> VoxelOrientation {
        VoxelOrientation { data: self.data & ORIENTATION_MASK }
    }

    pub open spec fn flips_x(&self) -> bool {
        self.data & FLIP_X_BIT == FLIP_X_BIT
    }

    pub open spec fn flips_y(&self) -> bool {
        self.data & FLIP_Y_BIT == FLIP_Y_BIT
    }

    pub open spec fn flips_z(&self) -> bool {
        self.data & FLIP_Z_BIT == FLIP_Z_BIT
    }

    pub open spec fn rotates_x(&self) -> bool {
        self.data & ROTATE_X_BIT == ROTATE_X_BIT
    }

    pub open spec fn rotates_z(&self) -> bool {
        self.data & ROTATE_Z_BIT == ROTATE_Z_BIT
    }

    /// This shape with its orientation bits replaced.
    pub open spec fn with_orientation(&self, orientation: VoxelOrientation) -> VoxelShape {
        VoxelShape { data: (self.data & VARIANT_MASK) | orientation.data }
    }

    /// The mask of face `direction` of this shape.
    pub open spec fn face_shape(&self, direction: VoxelDirection) -> u8
        recommends
            direction.wf(),
    {
        face_mask(self.data, direction.data)
    }

    /// Face `face` of this shape covers all of face `other.1` of `other.0`.
    pub open spec fn covers(&self, face: VoxelDirection, other: (VoxelShape, VoxelDirection)) -> bool
        recommends
            face.wf(),
            other.1.wf(),
    {
        self.face_shape(face) & other.0.face_shape(other.1) == other.0.face_shape(other.1)
    }

    pub fn get_face_shape(shape: VoxelShape, direction: VoxelDirection) -> (r: u8)
        requires
            direction.wf(),
        ensures
            r == shape.face_shape(direction),
    {
        let sides = orient_shape(shape.data);
        sides[direction.data as usize]
    }

    pub fn face_contains(&self, face: VoxelDirection, other: (VoxelShape, VoxelDirection)) -> (r:
        bool)
        requires
            face.wf(),
            other.1.wf(),
        ensures
            r == self.covers(face, other),
    {
        let other_shape = VoxelShape::get_face_shape(other.0, other.1);
        VoxelShape::get_face_shape(*self, face) & other_shape == other_shape
    }

    pub fn orient_self(&mut self, orientation: VoxelOrientation)
        ensures
            *final(self) == old(self).with_orientation(orientation),
    {
        self.data = (self.data & VARIANT_MASK) | orientation.data;
    }

    pub fn oriented(&self, orientation: VoxelOrientation) -> (r: VoxelShape)
        ensures
            r == self.with_orientation(orientation),
    {
        VoxelShape { data: (self.data & VARIANT_MASK) | orientation.data }
    }

    pub fn extract_shape(&self) -> (r: u8)
        ensures
            r == self.variant(),
            r == self.data % 8,
    {
        let data = self.data;
        assert(data & 0b_0000_0111 == data % 8) by (bit_vector);
        data & VARIANT_MASK
    }

    pub fn extract_flip_x(&self) -> (r: bool)
        ensures
            r == self.flips_x(),
    {
        self.data & FLIP_X_BIT == FLIP_X_BIT
    }

    pub fn extract_flip_y(&self) -> (r: bool)
        ensures
            r == self.flips_y(),
    {
        self.data & FLIP_Y_BIT == FLIP_Y_BIT
    }

    pub fn extract_flip_z(&self) -> (r: bool)
        ensures
            r == self.flips_z(),
    {
        self.data & FLIP_Z_BIT == FLIP_Z_BIT
    }

    pub fn extract_rotate_x(&self) -> (r: bool)
        ensures
            r == self.rotates_x(),
    {
        self.data & ROTATE_X_BIT == ROTATE_X_BIT
    }

    pub fn extract_rotate_z(&self) -> (r: bool)
        ensures
            r == self.rotates_z(),
    {
        self.data & ROTATE_Z_BIT == ROTATE_Z_BIT
    }

    pub fn extract_orientation(&self) -> (r: VoxelOrientation)
        ensures
            r == self.orientation(),
            r.wf(),
    {
        let data = self.data;
        assert((data & 0b_1111_1000) & 0b_0000_0111 == 0) by (bit_vector);
        VoxelOrientation { data: data & ORIENTATION_MASK }
    }
}

impl Default for VoxelShape {
    fn default() -> (r: Self)
        ensures
            r.data == 0,
    {
        VoxelShape { data: 0 }
    }
}

impl VoxelOrientation {
    /// Only orientation bits are set: the variant bits are clear.
    pub open spec fn wf(&self) -> bool {
        self.data & VARIANT_MASK == 0
    }

    pub open spec fn flips_x(&self) -> bool {
        self.data & FLIP_X_BIT == FLIP_X_BIT
    }

    pub open spec fn flips_y(&self) -> bool {
        self.data & FLIP_Y_BIT == FLIP_Y_BIT
    }

    pub open spec fn flips_z(&self) -> bool {
        self.data & FLIP_Z_BIT == FLIP_Z_BIT
    }

    pub open spec fn rotates_x(&self) -> bool {
        self.data & ROTATE_X_BIT == ROTATE_X_BIT
    }

    pub open spec fn rotates_z(&self) -> bool {
        self.data & ROTATE_Z_BIT == ROTATE_Z_BIT
    }

    pub fn extract_flip_x(&self) -> (r: bool)
        ensures
            r == self.flips_x(),
    {
        self.data & FLIP_X_BIT == FLIP_X_BIT
    }

    pub fn extract_flip_y(&self) -> (r: bool)
        ensures
            r == self.flips_y(),
    {
        self.data & FLIP_Y_BIT == FLIP_Y_BIT
    }

    pub fn extract_flip_z(&self) -> (r: bool)
        ensures
            r == self.flips_z(),
    {
        self.data & FLIP_Z_BIT == FLIP_Z_BIT
    }

    pub fn extract_rotate_x(&self) -> (r: bool)
        ensures
            r == self.rotates_x(),
    {
        self.data & ROTATE_X_BIT == ROTATE_X_BIT
    }

    pub fn extract_rotate_z(&self) -> (r: bool)
        ensures
            r == self.rotates_z(),
    {
        self.data & ROTATE_Z_BIT == ROTATE_Z_BIT
    }
}

impl Default for VoxelOrientation {
    fn default() -> (r: Self)
        ensures
            r.data == 0,
    {
        VoxelOrientation { data: 0 }
    }
}

} // verus!
