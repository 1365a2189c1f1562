//! Named orientations, as the bit patterns that a `VoxelOrientation` holds.
//!
//! A name lists the sides that the shape's bottom, north and east sides come
//! to face; names that differ only in a side the shape does not tell apart
//! share a pattern.

use vstd::prelude::*;

verus! {

pub const DEFAULT: u8 = 0b_00_000_000;

pub const BOTTOM: u8 = 0b_00_000_000;

pub const BOTTOM_NORTH: u8 = 0b_00_000_000;

pub const BOTTOM_NORTH_EAST: u8 = 0b_00_000_000;

pub const BOTTOM_NORTH_WEST: u8 = 0b_00_001_000;

pub const TOP: u8 = 0b_00_010_000;

pub const TOP_NORTH: u8 = 0b_00_010_000;

pub const TOP_NORTH_EAST: u8 = 0b_00_010_000;

pub const TOP_NORTH_WEST: u8 = 0b_00_011_000;

pub const TOP_SOUTH: u8 = 0b_00_110_000;

pub const TOP_SOUTH_EAST: u8 = 0b_00_110_000;

pub const TOP_SOUTH_WEST: u8 = 0b_00_111_000;

pub const BOTTOM_SOUTH: u8 = 0b_00_100_000;

pub const BOTTOM_SOUTH_EAST: u8 = 0b_00_100_000;

pub const BOTTOM_SOUTH_WEST: u8 = 0b_00_101_000;

pub const NORTH: u8 = 0b_01_000_000;

pub const NORTH_TOP: u8 = 0b_01_000_000;

pub const NORTH_TOP_EAST: u8 = 0b_01_000_000;

pub const NORTH_TOP_WEST: u8 = 0b_01_001_000;

pub const SOUTH: u8 = 0b_01_010_000;

pub const SOUTH_TOP: u8 = 0b_01_010_000;

pub const SOUTH_TOP_EAST: u8 = 0b_01_010_000;

pub const SOUTH_TOP_WEST: u8 = 0b_01_011_000;

pub const NORTH_BOTTOM: u8 = 0b_01_100_000;

pub const NORTH_BOTTOM_EAST: u8 = 0b_01_100_000;

pub const NORTH_BOTTOM_WEST: u8 = 0b_01_101_000;

pub const SOUTH_BOTTOM_WEST: u8 = 0b_01_111_000;

pub const WEST: u8 = 0b_10_000_000;

pub const WEST_NORTH: u8 = 0b_10_000_000;

pub const WEST_NORTH_BOTTOM: u8 = 0b_10_000_000;

pub const WEST_NORTH_TOP: u8 = 0b_10_001_000;

pub const EAST: u8 = 0b_10_010_000;

pub const EAST_NORTH: u8 = 0b_10_010_000;

pub const EAST_NORTH_BOTTOM: u8 = 0b_10_010_000;

pub const EAST_NORTH_TOP: u8 = 0b_10_011_000;

pub const EAST_SOUTH: u8 = 0b_10_100_000;

pub const EAST_SOUTH_BOTTOM: u8 = 0b_10_100_000;

pub const WEST_SOUTH: u8 = 0b_10_101_000;

pub const WEST_SOUTH_TOP: u8 = 0b_10_101_000;

pub const WEST_SOUTH_BOTTOM: u8 = 0b_10_110_000;

pub const EAST_SOUTH_TOP: u8 = 0b_10_111_000;

} // verus!
