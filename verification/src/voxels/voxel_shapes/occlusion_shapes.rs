//! Occlusion masks: for every packed shape byte and every direction, the
//! eight-bit pattern of the sub-regions of that face which the shape fills.
//!
//! Each of the eight shape variants has six hand-authored masks, one per
//! direction in the order north, south, east, west, top, bottom. The masks of
//! an oriented shape follow from those by the flips and quarter turns that the
//! orientation bits of the shape byte select.

use vstd::prelude::*;

verus! {

/// Faces of a voxel, and so masks per shape.
pub const FACE_COUNT: usize = 6;

/// Packed shape bytes.
pub const SHAPE_BYTES: usize = 256;

/// Entries of the full table: 256 shape bytes, six masks each.
pub const TABLE_LEN: usize = 1536;

pub const CUBE: [u8; 6] = [
    0b_1111_1111,  // North
    0b_1111_1111,  // South
    0b_1111_1111,  // East
    0b_1111_1111,  // West
    0b_1111_1111,  // Top
    0b_1111_1111,  // Bottom
];

pub const STAIR: [u8; 6] = [
    0b_1111_1111,  // North
    0b_1100_0011,  // South
    0b_1111_0011,  // East
    0b_1111_0011,  // West
    0b_0011_1100,  // Top
    0b_1111_1111,  // Bottom
];

pub const CORNER_STAIR: [u8; 6] = [
    0b_1111_1111,  // North
    0b_1100_1111,  // South
    0b_1111_1111,  // East
    0b_1111_0011,  // West
    0b_1111_1100,  // Top
    0b_1111_1111,  // Bottom
];

pub const SLAB: [u8; 6] = [
    0b_1100_0011,  // North
    0b_1100_0011,  // South
    0b_1100_0011,  // East
    0b_1100_0011,  // West
    0b_0000_0000,  // Top
    0b_1111_1111,  // Bottom
];

pub const INNER_PRISM_JUNCTION: [u8; 6] = [
    0b_1111_1111,  // North
    0b_1000_0111,  // South
    0b_1111_1111,  // East
    0b_1110_0001,  // West
    0b_0111_1000,  // Top
    0b_1111_1111,  // Bottom
];

pub const INNER_CORNER_PRISM: [u8; 6] = [
    0b_1111_1111,  // North
    0b_1000_0111,  // South
    0b_1111_1111,  // East
    0b_1110_0001,  // West
    0b_0000_0000,  // Top
    0b_1111_1111,  // Bottom
];

pub const OUTER_CORNER_PRISM: [u8; 6] = [
    0b_1000_0111,  // North
    0b_0000_0000,  // South
    0b_1110_0001,  // East
    0b_0000_0000,  // West
    0b_0000_0000,  // Top
    0b_1111_1111,  // Bottom
];

pub const PRISM: [u8; 6] = [
    0b_1111_1111,  // North
    0b_0000_0000,  // South
    0b_1110_0001,  // East
    0b_1110_0001,  // West
    0b_0000_0000,  // Top
    0b_1111_1111,  // Bottom
];

/// The base masks of the eight variants, by variant index.
pub const SHAPES: [[u8; 6]; 8] = [
    CUBE,
    STAIR,
    CORNER_STAIR,
    SLAB,
    INNER_PRISM_JUNCTION,
    INNER_CORNER_PRISM,
    OUTER_CORNER_PRISM,
    PRISM,
];

/// The byte whose bit `i` is bit `7 - i` of `x`.
#[verifier::opaque]
pub open spec fn reversed(x: u8) -> u8 {
    ((x & 0x01) << 7) | ((x & 0x02) << 5) | ((x & 0x04) << 3) | ((x & 0x08) << 1) | ((x & 0x10)
        >> 1) | ((x & 0x20) >> 3) | ((x & 0x40) >> 5) | ((x & 0x80) >> 7)
}

/// The byte with the two nibbles of `x` exchanged: a rotation by four bits.
#[verifier::opaque]
pub open spec fn half_turned(x: u8) -> u8 {
    (x << 4) | (x >> 4)
}

/// `x` rotated right by two bits: a quarter turn of the face.
#[verifier::opaque]
pub open spec fn quarter_turned(x: u8) -> u8 {
    (x >> 2) | (x << 6)
}

/// The base masks of a shape variant.
pub open spec fn base_shape(variant: u8) -> Seq<u8>
    recommends
        variant < 8,
{
    SHAPES[variant as int]@
}

/// Mirror along the north-south axis.
pub open spec fn flipped_north_south(sides: Seq<u8>) -> Seq<u8> {
    seq![
        reversed(sides[1]),
        reversed(sides[0]),
        reversed(sides[2]),
        reversed(sides[3]),
        half_turned(reversed(sides[4])),
        half_turned(reversed(sides[5])),
    ]
}

/// Mirror along the east-west axis.
pub open spec fn flipped_east_west(sides: Seq<u8>) -> Seq<u8> {
    seq![
        reversed(sides[1]),
        reversed(sides[0]),
        reversed(sides[3]),
        reversed(sides[2]),
        reversed(sides[4]),
        reversed(sides[5]),
    ]
}

/// Mirror along the vertical axis.
pub open spec fn flipped_top_bottom(sides: Seq<u8>) -> Seq<u8> {
    seq![
        half_turned(reversed(sides[0])),
        half_turned(reversed(sides[1])),
        half_turned(reversed(sides[2])),
        half_turned(reversed(sides[3])),
        reversed(sides[5]),
        reversed(sides[4]),
    ]
}

/// Quarter turn about the X axis: the vertical and the depth faces trade
/// places, and the two faces on the axis turn in place.
pub open spec fn rotated_x(sides: Seq<u8>) -> Seq<u8> {
    seq![
        sides[5],
        sides[4],
        quarter_turned(sides[2]),
        quarter_turned(sides[3]),
        sides[0],
        sides[1],
    ]
}

/// Quarter turn about the Z axis: the vertical and the horizontal side faces
/// trade places, and the two faces on the axis turn in place.
pub open spec fn rotated_z(sides: Seq<u8>) -> Seq<u8> {
    seq![
        quarter_turned(sides[0]),
        quarter_turned(sides[1]),
        sides[4],
        sides[5],
        sides[2],
        sides[3],
    ]
}

/// The six masks of a packed shape byte: the base masks of its variant (bits
/// 0 to 2), mirrored east-west on bit 3, top-bottom on bit 4, north-south on
/// bit 5, then turned about X on bit 6 and about Z on bit 7.
pub open spec fn oriented_shape(shape: u8) -> Seq<u8> {
    let s0 = base_shape(shape & 0b_0000_0111);
    let s1 = if shape & 0b_0000_1000 != 0 {
        flipped_east_west(s0)
    } else {
        s0
    };
    let s2 = if shape & 0b_0001_0000 != 0 {
        flipped_top_bottom(s1)
    } else {
        s1
    };
    let s3 = if shape & 0b_0010_0000 != 0 {
        flipped_north_south(s2)
    } else {
        s2
    };
    let s4 = if shape & 0b_0100_0000 != 0 {
        rotated_x(s3)
    } else {
        s3
    };
    if shape & 0b_1000_0000 != 0 {
        rotated_z(s4)
    } else {
        s4
    }
}

/// The mask of face `direction` of the packed shape byte `shape`.
pub open spec fn face_mask(shape: u8, direction: u8) -> u8
    recommends
        direction < 6,
{
    oriented_shape(shape)[direction as int]
}

/// The full table: the mask of shape byte `s` and direction `d` stands at
/// index `s * 6 + d`.
pub open spec fn shape_permutations() -> Seq<u8> {
    Seq::new(1536, |k: int| face_mask((k / 6) as u8, (k % 6) as u8))
}

/// Reversing the bits of a byte twice gives the byte back.
pub proof fn lemma_reversed_involution(x: u8)
    ensures
        reversed(reversed(x)) == x,
{
    assert(reversed(reversed(x)) == x) by (bit_vector);
}

/// Bit `i` of the reversed byte is bit `7 - i` of the byte.
pub proof fn lemma_reversed_bit(x: u8, i: u8)
    requires
        i < 8,
    ensures
        (reversed(x) >> i) & 1 == (x >> ((7 - i) as u8)) & 1,
{
    assert(i < 8 ==> (reversed(x) >> i) & 1 == (x >> ((7 - i) as u8)) & 1) by (bit_vector);
}

/// Two half turns give the byte back, and a half turn may be taken before or
/// after reversing the bits.
pub proof fn lemma_half_turned(x: u8)
    ensures
        half_turned(half_turned(x)) == x,
        half_turned(reversed(x)) == reversed(half_turned(x)),
{
    assert(half_turned(half_turned(x)) == x) by (bit_vector);
    assert(half_turned(reversed(x)) == reversed(half_turned(x))) by (bit_vector);
}

/// Four quarter turns give the byte back, and two make a half turn.
pub proof fn lemma_quarter_turned(x: u8)
    ensures
        quarter_turned(quarter_turned(x)) == half_turned(x),
        quarter_turned(quarter_turned(quarter_turned(quarter_turned(x)))) == x,
{
    assert(quarter_turned(quarter_turned(x)) == half_turned(x)) by (bit_vector);
    assert(quarter_turned(quarter_turned(quarter_turned(quarter_turned(x)))) == x)
        by (bit_vector);
}

/// A full mask stays full under every transform of a single mask.
pub proof fn lemma_full_mask_is_fixed()
    ensures
        reversed(0xFF) == 0xFF,
        half_turned(0xFF) == 0xFF,
        quarter_turned(0xFF) == 0xFF,
{
    assert(reversed(0xFF) == 0xFF) by (bit_vector);
    assert(half_turned(0xFF) == 0xFF) by (bit_vector);
    assert(quarter_turned(0xFF) == 0xFF) by (bit_vector);
}

/// What reversing and half turns do to one mask, as the mirrors combine them.
proof fn lemma_mask_mirrors(x: u8)
    ensures
        reversed(reversed(x)) == x,
        half_turned(reversed(half_turned(reversed(x)))) == x,
        half_turned(reversed(reversed(x))) == reversed(half_turned(reversed(x))),
{
    assert(reversed(reversed(x)) == x) by (bit_vector);
    assert(half_turned(reversed(half_turned(reversed(x)))) == x) by (bit_vector);
    assert(half_turned(reversed(reversed(x))) == reversed(half_turned(reversed(x))))
        by (bit_vector);
}

/// Each of the three mirrors undoes itself.
pub proof fn lemma_flips_are_involutions(sides: Seq<u8>)
    requires
        sides.len() == 6,
    ensures
        flipped_north_south(flipped_north_south(sides)) == sides,
        flipped_east_west(flipped_east_west(sides)) == sides,
        flipped_top_bottom(flipped_top_bottom(sides)) == sides,
{
    lemma_mask_mirrors(sides[0]);
    lemma_mask_mirrors(sides[1]);
    lemma_mask_mirrors(sides[2]);
    lemma_mask_mirrors(sides[3]);
    lemma_mask_mirrors(sides[4]);
    lemma_mask_mirrors(sides[5]);
    assert(flipped_north_south(flipped_north_south(sides)) =~= sides);
    assert(flipped_east_west(flipped_east_west(sides)) =~= sides);
    assert(flipped_top_bottom(flipped_top_bottom(sides)) =~= sides);
}

/// The three mirrors may be taken in any order.
pub proof fn lemma_flips_commute(sides: Seq<u8>)
    requires
        sides.len() == 6,
    ensures
        flipped_north_south(flipped_east_west(sides)) == flipped_east_west(
            flipped_north_south(sides),
        ),
        flipped_top_bottom(flipped_east_west(sides)) == flipped_east_west(
            flipped_top_bottom(sides),
        ),
        flipped_top_bottom(flipped_north_south(sides)) == flipped_north_south(
            flipped_top_bottom(sides),
        ),
{
    lemma_mask_mirrors(sides[0]);
    lemma_mask_mirrors(sides[1]);
    lemma_mask_mirrors(sides[2]);
    lemma_mask_mirrors(sides[3]);
    lemma_mask_mirrors(sides[4]);
    lemma_mask_mirrors(sides[5]);
    assert(flipped_north_south(flipped_east_west(sides)) =~= flipped_east_west(
        flipped_north_south(sides),
    ));
    assert(flipped_top_bottom(flipped_east_west(sides)) =~= flipped_east_west(
        flipped_top_bottom(sides),
    ));
    assert(flipped_top_bottom(flipped_north_south(sides)) =~= flipped_north_south(
        flipped_top_bottom(sides),
    ));
}

/// All six masks are full.
pub open spec fn all_full(sides: Seq<u8>) -> bool {
    sides.len() == 6 && forall|i: int| 0 <= i < 6 ==> sides[i] == 0xFF
}

/// A cube fills every face in every orientation: whatever the orientation
/// bits of a shape byte whose variant is the cube, each of its masks is full.
pub proof fn lemma_cube_is_full(shape: u8, direction: u8)
    requires
        shape & 0b_0000_0111 == 0,
        direction < 6,
    ensures
        face_mask(shape, direction) == 0xFF,
{
    lemma_full_mask_is_fixed();
    let s0 = base_shape(shape & 0b_0000_0111);
    assert(all_full(s0));
    let s1 = if shape & 0b_0000_1000 != 0 {
        flipped_east_west(s0)
    } else {
        s0
    };
    assert(all_full(s1));
    let s2 = if shape & 0b_0001_0000 != 0 {
        flipped_top_bottom(s1)
    } else {
        s1
    };
    assert(all_full(s2));
    let s3 = if shape & 0b_0010_0000 != 0 {
        flipped_north_south(s2)
    } else {
        s2
    };
    assert(all_full(s3));
    let s4 = if shape & 0b_0100_0000 != 0 {
        rotated_x(s3)
    } else {
        s3
    };
    assert(all_full(s4));
    assert(all_full(oriented_shape(shape)));
}

/// Every packed shape byte has six masks.
pub proof fn lemma_oriented_shape_len(shape: u8)
    ensures
        oriented_shape(shape).len() == 6,
{
    let v = shape & 0b_0000_0111;
    assert(v < 8) by (bit_vector)
        requires
            v == shape & 0b_0000_0111,
    ;
}

/// The table holds, for each shape byte and direction, the mask of that pair:
/// it is a function of the pair alone, so two tables never differ.
pub proof fn lemma_table_entry(shape: u8, direction: u8)
    requires
        direction < 6,
    ensures
        shape_permutations().len() == 1536,
        shape_permutations()[shape * 6 + direction] == face_mask(shape, direction),
{
    let k = shape * 6 + direction;
    assert(k / 6 == shape as int && k % 6 == direction as int);
}

/// Two tables that were built hold the same bytes.
pub proof fn lemma_built_tables_are_equal(first: [u8; 1536], second: [u8; 1536])
    requires
        first@ == shape_permutations(),
        second@ == shape_permutations(),
    ensures
        first == second,
{
    assert(first =~= second);
}

pub fn reverse_bits(x: u8) -> (r: u8)
    ensures
        r == reversed(x),
{
    let a: u8 = ((x & 0xF0) >> 4) | ((x & 0x0F) << 4);
    let b: u8 = ((a & 0xCC) >> 2) | ((a & 0x33) << 2);
    let c: u8 = ((b & 0xAA) >> 1) | ((b & 0x55) << 1);
    assert(c == reversed(x)) by (bit_vector)
        requires
            a == ((x & 0xF0) >> 4) | ((x & 0x0F) << 4),
            b == ((a & 0xCC) >> 2) | ((a & 0x33) << 2),
            c == ((b & 0xAA) >> 1) | ((b & 0x55) << 1),
    ;
    c
}

pub fn half_turn(x: u8) -> (r: u8)
    ensures
        r == half_turned(x),
{
    reveal(half_turned);
    (x << 4) | (x >> 4)
}

pub fn quarter_turn(x: u8) -> (r: u8)
    ensures
        r == quarter_turned(x),
{
    reveal(quarter_turned);
    (x >> 2) | (x << 6)
}

pub fn flip_north_south(sides: [u8; 6]) -> (r: [u8; 6])
    ensures
        r@ == flipped_north_south(sides@),
{
    let r = [
        reverse_bits(sides[1]),
        reverse_bits(sides[0]),
        reverse_bits(sides[2]),
        reverse_bits(sides[3]),
        half_turn(reverse_bits(sides[4])),
        half_turn(reverse_bits(sides[5])),
    ];
    assert(r@ =~= flipped_north_south(sides@));
    r
}

pub fn flip_east_west(sides: [u8; 6]) -> (r: [u8; 6])
    ensures
        r@ == flipped_east_west(sides@),
{
    let r = [
        reverse_bits(sides[1]),
        reverse_bits(sides[0]),
        reverse_bits(sides[3]),
        reverse_bits(sides[2]),
        reverse_bits(sides[4]),
        reverse_bits(sides[5]),
    ];
    assert(r@ =~= flipped_east_west(sides@));
    r
}

pub fn flip_top_bottom(sides: [u8; 6]) -> (r: [u8; 6])
    ensures
        r@ == flipped_top_bottom(sides@),
{
    let r = [
        half_turn(reverse_bits(sides[0])),
        half_turn(reverse_bits(sides[1])),
        half_turn(reverse_bits(sides[2])),
        half_turn(reverse_bits(sides[3])),
        reverse_bits(sides[5]),
        reverse_bits(sides[4]),
    ];
    assert(r@ =~= flipped_top_bottom(sides@));
    r
}

pub fn rotate_x(sides: [u8; 6]) -> (r: [u8; 6])
    ensures
        r@ == rotated_x(sides@),
{
    let r = [
        sides[5],
        sides[4],
        quarter_turn(sides[2]),
        quarter_turn(sides[3]),
        sides[0],
        sides[1],
    ];
    assert(r@ =~= rotated_x(sides@));
    r
}

pub fn rotate_z(sides: [u8; 6]) -> (r: [u8; 6])
    ensures
        r@ == rotated_z(sides@),
{
    let r = [
        quarter_turn(sides[0]),
        quarter_turn(sides[1]),
        sides[4],
        sides[5],
        sides[2],
        sides[3],
    ];
    assert(r@ =~= rotated_z(sides@));
    r
}

/// The six masks of one packed shape byte.
pub fn orient_shape(shape: u8) -> (r: [u8; 6])
    ensures
        r@ == oriented_shape(shape),
{
    let variant: u8 = shape & 0b_0000_0111;
    assert(variant < 8) by (bit_vector)
        requires
            variant == shape & 0b_0000_0111,
    ;
    let mut sides = SHAPES[variant as usize];
    if shape & 0b_0000_1000 != 0 {
        sides = flip_east_west(sides);
    }
    if shape & 0b_0001_0000 != 0 {
        sides = flip_top_bottom(sides);
    }
    if shape & 0b_0010_0000 != 0 {
        sides = flip_north_south(sides);
    }
    if shape & 0b_0100_0000 != 0 {
        sides = rotate_x(sides);
    }
    if shape & 0b_1000_0000 != 0 {
        sides = rotate_z(sides);
    }
    sides
}

/// Builds the full table of masks.
pub fn get_shape_permutations() -> (r: [u8; 1536])
    ensures
        r@ == shape_permutations(),
{
    let mut r = [0u8; 1536];
    let mut i: usize = 0;
    while i < 256
        invariant
            i <= 256,
            forall|k: int| 0 <= k < i * 6 ==> r@[k] == face_mask((k / 6) as u8, (k % 6) as u8),
        decreases 256 - i,
    {
        let sides = orient_shape(i as u8);
        let mut b: usize = 0;
        while b < 6
            invariant
                i < 256,
                b <= 6,
                sides@ == oriented_shape(i as u8),
                forall|k: int|
                    0 <= k < i * 6 + b ==> r@[k] == face_mask((k / 6) as u8, (k % 6) as u8),
            decreases 6 - b,
        {
            r[i * 6 + b] = sides[b];
            b += 1;
        }
        i += 1;
    }
    assert(r@ =~= shape_permutations());
    r
}

} // verus!
