//! AV1 levels, tiers and profiles, after Annex A of the AV1 bitstream
//! standard: the table of levels with its limits on picture, rates and tiles, and the
//! choice of the lowest level for a workload.
use crate::common::ProfileConstraint;
use vstd::prelude::*;
use yuv::color::Depth;

verus! {

#[derive(Debug, Clone, Copy, PartialEq, Eq, PartialOrd, Ord, Structural)]
pub enum Profile {
    Main,
    High,
    Professional,
}

#[derive(Debug, Clone, Copy, PartialEq, Eq, PartialOrd, Ord, Structural)]
pub enum Tier {
    Main,
    High,
}

/// The levels in ascending capability. `seq_level_idx`, the value that a
/// bitstream carries, is another number, see `usize` and `from`. `Reserved`
/// and `Max` have no record in the table.
#[derive(Debug, Clone, Copy, PartialEq, Eq, PartialOrd, Ord, Structural)]
pub enum Level {
    L2,
    L2_1,
    L3,
    L3_1,
    L4,
    L4_1,
    L5,
    L5_1,
    L5_2,
    L5_3,
    L6,
    L6_1,
    L6_2,
    L6_3,
    Reserved,
    Max,
}

/// Number of records in the table of levels.
pub const LEVEL_COUNT: usize = 14;

impl Profile {
    /// What the profile allows: its greatest bit depth and its set of chroma
    /// formats. The High profile allows 4:4:4 and not 4:2:2.
    pub open spec fn spec_constraint(self) -> ProfileConstraint {
        match self {
            Profile::Main => ProfileConstraint {
                max_bit_depth: Depth::Depth10,
                cs420: true,
                cs422: false,
                cs444: false,
                mono_chrome: true,
            },
            Profile::High => ProfileConstraint {
                max_bit_depth: Depth::Depth10,
                cs420: true,
                cs422: false,
                cs444: true,
                mono_chrome: true,
            },
            Profile::Professional => ProfileConstraint {
                max_bit_depth: Depth::Depth12,
                cs420: true,
                cs422: true,
                cs444: true,
                mono_chrome: true,
            },
        }
    }

    pub fn constraint(&self) -> (r: ProfileConstraint)
        ensures
            r == self.spec_constraint(),
    {
        match self {
            Profile::Main => ProfileConstraint {
                max_bit_depth: Depth::Depth10,
                cs420: true,
                cs422: false,
                cs444: false,
                mono_chrome: true,
            },
            Profile::High => ProfileConstraint {
                max_bit_depth: Depth::Depth10,
                cs420: true,
                cs422: false,
                cs444: true,
                mono_chrome: true,
            },
            Profile::Professional => ProfileConstraint {
                max_bit_depth: Depth::Depth12,
                cs420: true,
                cs422: true,
                cs444: true,
                mono_chrome: true,
            },
        }
    }
}

impl From<&Profile> for ProfileConstraint {
    fn from(profile: &Profile) -> (r: Self) {
        profile.constraint()
    }
}

impl vstd::std_specs::convert::FromSpecImpl<&Profile> for ProfileConstraint {
    open spec fn obeys_from_spec() -> bool {
        true
    }

    open spec fn from_spec(profile: &Profile) -> Self {
        profile.spec_constraint()
    }
}

impl Level {
    /// Place of the level in the order of capability, from 0.
    pub open spec fn spec_rank(self) -> nat {
        match self {
            Level::L2 => 0,
            Level::L2_1 => 1,
            Level::L3 => 2,
            Level::L3_1 => 3,
            Level::L4 => 4,
            Level::L4_1 => 5,
            Level::L5 => 6,
            Level::L5_1 => 7,
            Level::L5_2 => 8,
            Level::L5_3 => 9,
            Level::L6 => 10,
            Level::L6_1 => 11,
            Level::L6_2 => 12,
            Level::L6_3 => 13,
            Level::Reserved => 14,
            Level::Max => 15,
        }
    }

    /// The `seq_level_idx` of the level. `Reserved` stands for the values 24
    /// to 30 and gives the first of them.
    pub open spec fn spec_usize(self) -> usize {
        match self {
            Level::L2 => 0,
            Level::L2_1 => 1,
            Level::L3 => 4,
            Level::L3_1 => 5,
            Level::L4 => 8,
            Level::L4_1 => 9,
            Level::L5 => 12,
            Level::L5_1 => 13,
            Level::L5_2 => 14,
            Level::L5_3 => 15,
            Level::L6 => 16,
            Level::L6_1 => 17,
            Level::L6_2 => 18,
            Level::L6_3 => 19,
            Level::Reserved => 24,
            Level::Max => 32,
        }
    }

    /// The level that a bitstream value stands for: the level with that
    /// value, and the top level for any other value.
    pub open spec fn spec_from(value: usize) -> Level {
        if value == 0 {
            Level::L2
        } else if value == 1 {
            Level::L2_1
        } else if value == 4 {
            Level::L3
        } else if value == 5 {
            Level::L3_1
        } else if value == 8 {
            Level::L4
        } else if value == 9 {
            Level::L4_1
        } else if value == 12 {
            Level::L5
        } else if value == 13 {
            Level::L5_1
        } else if value == 14 {
            Level::L5_2
        } else if value == 15 {
            Level::L5_3
        } else if value == 16 {
            Level::L6
        } else if value == 17 {
            Level::L6_1
        } else if value == 18 {
            Level::L6_2
        } else if value == 19 {
            Level::L6_3
        } else if 24 <= value <= 30 {
            Level::Reserved
        } else {
            Level::Max
        }
    }

    /// The name of the level in print.
    pub open spec fn spec_name(self) -> Seq<char> {
        match self {
            Level::L2 => "L2"@,
            Level::L2_1 => "L2.1"@,
            Level::L3 => "L3"@,
            Level::L3_1 => "L3.1"@,
            Level::L4 => "L4"@,
            Level::L4_1 => "L4.1"@,
            Level::L5 => "L5"@,
            Level::L5_1 => "L5.1"@,
            Level::L5_2 => "L5.2"@,
            Level::L5_3 => "L5.3"@,
            Level::L6 => "L6"@,
            Level::L6_1 => "L6.1"@,
            Level::L6_2 => "L6.2"@,
            Level::L6_3 => "L6.3"@,
            Level::Reserved => "Reserved"@,
            Level::Max => "Max"@,
        }
    }

    /// Place of the level in the order of capability, from 0.
    pub fn rank(&self) -> (r: usize)
        ensures
            r == self.spec_rank(),
            r < 16,
    {
        match self {
            Level::L2 => 0,
            Level::L2_1 => 1,
            Level::L3 => 2,
            Level::L3_1 => 3,
            Level::L4 => 4,
            Level::L4_1 => 5,
            Level::L5 => 6,
            Level::L5_1 => 7,
            Level::L5_2 => 8,
            Level::L5_3 => 9,
            Level::L6 => 10,
            Level::L6_1 => 11,
            Level::L6_2 => 12,
            Level::L6_3 => 13,
            Level::Reserved => 14,
            Level::Max => 15,
        }
    }

    /// The value that a bitstream carries for the level.
    pub fn usize(&self) -> (r: usize)
        ensures
            r == self.spec_usize(),
    {
        match self {
            Level::L2 => 0,
            Level::L2_1 => 1,
            Level::L3 => 4,
            Level::L3_1 => 5,
            Level::L4 => 8,
            Level::L4_1 => 9,
            Level::L5 => 12,
            Level::L5_1 => 13,
            Level::L5_2 => 14,
            Level::L5_3 => 15,
            Level::L6 => 16,
            Level::L6_1 => 17,
            Level::L6_2 => 18,
            Level::L6_3 => 19,
            Level::Reserved => 24,
            Level::Max => 32,
        }
    }

    /// The name of the level in print.
    pub fn name(&self) -> (r: &'static str)
        ensures
            r@ == self.spec_name(),
    {
        match self {
            Level::L2 => "L2",
            Level::L2_1 => "L2.1",
            Level::L3 => "L3",
            Level::L3_1 => "L3.1",
            Level::L4 => "L4",
            Level::L4_1 => "L4.1",
            Level::L5 => "L5",
            Level::L5_1 => "L5.1",
            Level::L5_2 => "L5.2",
            Level::L5_3 => "L5.3",
            Level::L6 => "L6",
            Level::L6_1 => "L6.1",
            Level::L6_2 => "L6.2",
            Level::L6_3 => "L6.3",
            Level::Reserved => "Reserved",
            Level::Max => "Max",
        }
    }
}

/// Decodes the value that a bitstream carries for a level. A value that
/// stands for no level gives the top level.
impl From<usize> for Level {
    fn from(value: usize) -> (r: Self) {
        match value {
            0 => Level::L2,
            1 => Level::L2_1,
            4 => Level::L3,
            5 => Level::L3_1,
            8 => Level::L4,
            9 => Level::L4_1,
            12 => Level::L5,
            13 => Level::L5_1,
            14 => Level::L5_2,
            15 => Level::L5_3,
            16 => Level::L6,
            17 => Level::L6_1,
            18 => Level::L6_2,
            19 => Level::L6_3,
            24..=30 => Level::Reserved,
            32 => Level::Max,
            _ => Level::Max,
        }
    }
}

impl vstd::std_specs::convert::FromSpecImpl<usize> for Level {
    open spec fn obeys_from_spec() -> bool {
        true
    }

    open spec fn from_spec(value: usize) -> Self {
        Level::spec_from(value)
    }
}

/// Decoding the value of a level gives that level back.
pub proof fn wire_value_round_trip(level: Level)
    ensures
        Level::spec_from(level.spec_usize()) == level,
{
}

/// A value that is the value of no level decodes to the top level.
pub proof fn unknown_wire_value_is_top(value: usize)
    requires
        forall|level: Level| #[trigger] level.spec_usize() != value,
        !(24 <= value <= 30),
    ensures
        Level::spec_from(value) == Level::Max,
{
    assert(Level::L2.spec_usize() != value);
    assert(Level::L2_1.spec_usize() != value);
    assert(Level::L3.spec_usize() != value);
    assert(Level::L3_1.spec_usize() != value);
    assert(Level::L4.spec_usize() != value);
    assert(Level::L4_1.spec_usize() != value);
    assert(Level::L5.spec_usize() != value);
    assert(Level::L5_1.spec_usize() != value);
    assert(Level::L5_2.spec_usize() != value);
    assert(Level::L5_3.spec_usize() != value);
    assert(Level::L6.spec_usize() != value);
    assert(Level::L6_1.spec_usize() != value);
    assert(Level::L6_2.spec_usize() != value);
    assert(Level::L6_3.spec_usize() != value);
    assert(Level::Reserved.spec_usize() != value);
    assert(Level::Max.spec_usize() != value);
}

/// The limits of one level.
#[derive(Debug, Clone, Copy, PartialEq, Eq, Structural)]
pub struct LevelSpecification {
    pub id: Level,
    /// Samples per picture
    pub max_picture_size: u64,
    /// Samples per row
    pub max_horizontal: u32,
    /// Samples per column
    pub max_vertical: u32,
    /// Samples shown per second
    pub max_display_rate: u64,
    /// Samples decoded per second
    pub max_decode_rate: u64,
    /// Frame headers per second
    pub max_header_rate: u32,
    /// Bitrate of the Main tier, in bit/s
    pub max_bit_rate_main: u64,
    /// Bitrate of the High tier, where the level has one
    pub max_bit_rate_high: Option<u32>,
    pub min_comp_basis: u32,
    pub max_tiles: u32,
    pub max_tile_cols: u32,
}

/// A bitrate of the High tier is not followed by a lower one, nor by none.
pub open spec fn high_tier_ordered(before: Option<u32>, after: Option<u32>) -> bool {
    match (before, after) {
        (Some(a), Some(b)) => a <= b,
        (Some(_), None) => false,
        (None, _) => true,
    }
}

impl LevelSpecification {
    /// The bitrate that the level allows at a tier, whatever the profile. A
    /// level without a High tier allows nothing there.
    pub open spec fn spec_max_bit_rate(self, tier: Tier) -> Option<u64> {
        match tier {
            Tier::Main => Some(self.max_bit_rate_main),
            Tier::High => match self.max_bit_rate_high {
                Some(v) => Some(v as u64),
                None => None,
            },
        }
    }

    /// The level that the record describes.
    pub fn id(&self) -> (r: Level)
        ensures
            r == self.id,
    {
        self.id
    }

    pub fn max_picture_size(&self) -> (r: u64)
        ensures
            r == self.max_picture_size,
    {
        self.max_picture_size
    }

    pub fn max_horizontal(&self) -> (r: u32)
        ensures
            r == self.max_horizontal,
    {
        self.max_horizontal
    }

    pub fn max_vertical(&self) -> (r: u32)
        ensures
            r == self.max_vertical,
    {
        self.max_vertical
    }

    /// Another name for `max_horizontal`.
    pub fn max_width(&self) -> (r: u32)
        ensures
            r == self.max_horizontal,
    {
        self.max_horizontal
    }

    /// Another name for `max_vertical`.
    pub fn max_height(&self) -> (r: u32)
        ensures
            r == self.max_vertical,
    {
        self.max_vertical
    }

    pub fn max_display_rate(&self) -> (r: u64)
        ensures
            r == self.max_display_rate,
    {
        self.max_display_rate
    }

    pub fn max_decode_rate(&self) -> (r: u64)
        ensures
            r == self.max_decode_rate,
    {
        self.max_decode_rate
    }

    pub fn max_header_rate(&self) -> (r: u32)
        ensures
            r == self.max_header_rate,
    {
        self.max_header_rate
    }

    /// The bitrate that the level allows at a tier, in bit/s, and `None`
    /// where the level has no such tier.
    pub fn max_bit_rate(&self, tier: Tier) -> (r: Option<u64>)
        ensures
            r == self.spec_max_bit_rate(tier),
    {
        match tier {
            Tier::Main => Some(self.max_bit_rate_main),
            Tier::High => match self.max_bit_rate_high {
                Some(v) => Some(v as u64),
                None => None,
            },
        }
    }

    pub fn max_bit_rate_main(&self) -> (r: u64)
        ensures
            r == self.max_bit_rate_main,
    {
        self.max_bit_rate_main
    }

    pub fn max_bit_rate_high(&self) -> (r: Option<u32>)
        ensures
            r == self.max_bit_rate_high,
    {
        self.max_bit_rate_high
    }

    pub fn min_comp_basis(&self) -> (r: u32)
        ensures
            r == self.min_comp_basis,
    {
        self.min_comp_basis
    }

    pub fn max_tiles(&self) -> (r: u32)
        ensures
            r == self.max_tiles,
    {
        self.max_tiles
    }

    pub fn max_tile_cols(&self) -> (r: u32)
        ensures
            r == self.max_tile_cols,
    {
        self.max_tile_cols
    }
}

/// The table of levels, in ascending capability.
pub open spec fn level_details() -> Seq<LevelSpecification> {
    seq![
        LevelSpecification {
            id: Level::L2,
            max_picture_size: 147456,
            max_horizontal: 1152,
            max_vertical: 2048,
            max_display_rate: 4423680,
            max_decode_rate: 5529600,
            max_header_rate: 150,
            max_bit_rate_main: 1_500_000,
            max_bit_rate_high: None,
            min_comp_basis: 2,
            max_tiles: 8,
            max_tile_cols: 4,
        },
        LevelSpecification {
            id: Level::L2_1,
            max_picture_size: 278784,
            max_horizontal: 1584,
            max_vertical: 2816,
            max_display_rate: 8363520,
            max_decode_rate: 10454400,
            max_header_rate: 150,
            max_bit_rate_main: 3_000_000,
            max_bit_rate_high: None,
            min_comp_basis: 2,
            max_tiles: 8,
            max_tile_cols: 4,
        },
        LevelSpecification {
            id: Level::L3,
            max_picture_size: 665856,
            max_horizontal: 2448,
            max_vertical: 4352,
            max_display_rate: 19975680,
            max_decode_rate: 24969600,
            max_header_rate: 150,
            max_bit_rate_main: 6_000_000,
            max_bit_rate_high: None,
            min_comp_basis: 2,
            max_tiles: 16,
            max_tile_cols: 6,
        },
        LevelSpecification {
            id: Level::L3_1,
            max_picture_size: 1065024,
            max_horizontal: 3096,
            max_vertical: 5504,
            max_display_rate: 31950720,
            max_decode_rate: 39938400,
            max_header_rate: 150,
            max_bit_rate_main: 10_000_000,
            max_bit_rate_high: None,
            min_comp_basis: 2,
            max_tiles: 16,
            max_tile_cols: 6,
        },
        LevelSpecification {
            id: Level::L4,
            max_picture_size: 2359296,
            max_horizontal: 3456,
            max_vertical: 6144,
            max_display_rate: 70778880,
            max_decode_rate: 77856768,
            max_header_rate: 300,
            max_bit_rate_main: 12_000_000,
            max_bit_rate_high: Some(30_000_000),
            min_comp_basis: 4,
            max_tiles: 32,
            max_tile_cols: 8,
        },
        LevelSpecification {
            id: Level::L4_1,
            max_picture_size: 2359296,
            max_horizontal: 3456,
            max_vertical: 6144,
            max_display_rate: 141557760,
            max_decode_rate: 155713536,
            max_header_rate: 300,
            max_bit_rate_main: 20_000_000,
            max_bit_rate_high: Some(50_000_000),
            min_comp_basis: 4,
            max_tiles: 32,
            max_tile_cols: 8,
        },
        LevelSpecification {
            id: Level::L5,
            max_picture_size: 8912896,
            max_horizontal: 4352,
            max_vertical: 8192,
            max_display_rate: 267386880,
            max_decode_rate: 273715200,
            max_header_rate: 300,
            max_bit_rate_main: 30_000_000,
            max_bit_rate_high: Some(100_000_000),
            min_comp_basis: 6,
            max_tiles: 64,
            max_tile_cols: 8,
        },
        LevelSpecification {
            id: Level::L5_1,
            max_picture_size: 8912896,
            max_horizontal: 4352,
            max_vertical: 8192,
            max_display_rate: 534773760,
            max_decode_rate: 547430400,
            max_header_rate: 300,
            max_bit_rate_main: 40_000_000,
            max_bit_rate_high: Some(160_000_000),
            min_comp_basis: 8,
            max_tiles: 64,
            max_tile_cols: 8,
        },
        LevelSpecification {
            id: Level::L5_2,
            max_picture_size: 8912896,
            max_horizontal: 4352,
            max_vertical: 8192,
            max_display_rate: 1069547520,
            max_decode_rate: 1094860800,
            max_header_rate: 300,
            max_bit_rate_main: 60_000_000,
            max_bit_rate_high: Some(240_000_000),
            min_comp_basis: 8,
            max_tiles: 64,
            max_tile_cols: 8,
        },
        LevelSpecification {
            id: Level::L5_3,
            max_picture_size: 8912896,
            max_horizontal: 4352,
            max_vertical: 8192,
            max_display_rate: 1069547520,
            max_decode_rate: 1176502272,
            max_header_rate: 300,
            max_bit_rate_main: 60_000_000,
            max_bit_rate_high: Some(240_000_000),
            min_comp_basis: 8,
            max_tiles: 64,
            max_tile_cols: 8,
        },
        LevelSpecification {
            id: Level::L6,
            max_picture_size: 35651584,
            max_horizontal: 8704,
            max_vertical: 16384,
            max_display_rate: 1069547520,
            max_decode_rate: 1176502272,
            max_header_rate: 300,
            max_bit_rate_main: 60_000_000,
            max_bit_rate_high: Some(240_000_000),
            min_comp_basis: 8,
            max_tiles: 128,
            max_tile_cols: 16,
        },
        LevelSpecification {
            id: Level::L6_1,
            max_picture_size: 35651584,
            max_horizontal: 8704,
            max_vertical: 16384,
            max_display_rate: 2139095040,
            max_decode_rate: 2189721600,
            max_header_rate: 300,
            max_bit_rate_main: 100_000_000,
            max_bit_rate_high: Some(480_000_000),
            min_comp_basis: 8,
            max_tiles: 128,
            max_tile_cols: 16,
        },
        LevelSpecification {
            id: Level::L6_2,
            max_picture_size: 35651584,
            max_horizontal: 8704,
            max_vertical: 16384,
            max_display_rate: 4278190080,
            max_decode_rate: 4379443200,
            max_header_rate: 300,
            max_bit_rate_main: 160_000_000,
            max_bit_rate_high: Some(800_000_000),
            min_comp_basis: 8,
            max_tiles: 128,
            max_tile_cols: 16,
        },
        LevelSpecification {
            id: Level::L6_3,
            max_picture_size: 35651584,
            max_horizontal: 8704,
            max_vertical: 16384,
            max_display_rate: 4278190080,
            max_decode_rate: 4706009088,
            max_header_rate: 300,
            max_bit_rate_main: 160_000_000,
            max_bit_rate_high: Some(800_000_000),
            min_comp_basis: 8,
            max_tiles: 128,
            max_tile_cols: 16,
        },
    ]
}

/// The record at a place of the table, counted from 0.
pub fn level_detail(index: usize) -> (r: LevelSpecification)
    requires
        index < LEVEL_COUNT,
    ensures
        r == level_details()[index as int],
{
    match index {
        0 => LevelSpecification {
            id: Level::L2,
            max_picture_size: 147456,
            max_horizontal: 1152,
            max_vertical: 2048,
            max_display_rate: 4423680,
            max_decode_rate: 5529600,
            max_header_rate: 150,
            max_bit_rate_main: 1_500_000,
            max_bit_rate_high: None,
            min_comp_basis: 2,
            max_tiles: 8,
            max_tile_cols: 4,
        },
        1 => LevelSpecification {
            id: Level::L2_1,
            max_picture_size: 278784,
            max_horizontal: 1584,
            max_vertical: 2816,
            max_display_rate: 8363520,
            max_decode_rate: 10454400,
            max_header_rate: 150,
            max_bit_rate_main: 3_000_000,
            max_bit_rate_high: None,
            min_comp_basis: 2,
            max_tiles: 8,
            max_tile_cols: 4,
        },
        2 => LevelSpecification {
            id: Level::L3,
            max_picture_size: 665856,
            max_horizontal: 2448,
            max_vertical: 4352,
            max_display_rate: 19975680,
            max_decode_rate: 24969600,
            max_header_rate: 150,
            max_bit_rate_main: 6_000_000,
            max_bit_rate_high: None,
            min_comp_basis: 2,
            max_tiles: 16,
            max_tile_cols: 6,
        },
        3 => LevelSpecification {
            id: Level::L3_1,
            max_picture_size: 1065024,
            max_horizontal: 3096,
            max_vertical: 5504,
            max_display_rate: 31950720,
            max_decode_rate: 39938400,
            max_header_rate: 150,
            max_bit_rate_main: 10_000_000,
            max_bit_rate_high: None,
            min_comp_basis: 2,
            max_tiles: 16,
            max_tile_cols: 6,
        },
        4 => LevelSpecification {
            id: Level::L4,
            max_picture_size: 2359296,
            max_horizontal: 3456,
            max_vertical: 6144,
            max_display_rate: 70778880,
            max_decode_rate: 77856768,
            max_header_rate: 300,
            max_bit_rate_main: 12_000_000,
            max_bit_rate_high: Some(30_000_000),
            min_comp_basis: 4,
            max_tiles: 32,
            max_tile_cols: 8,
        },
        5 => LevelSpecification {
            id: Level::L4_1,
            max_picture_size: 2359296,
            max_horizontal: 3456,
            max_vertical: 6144,
            max_display_rate: 141557760,
            max_decode_rate: 155713536,
            max_header_rate: 300,
            max_bit_rate_main: 20_000_000,
            max_bit_rate_high: Some(50_000_000),
            min_comp_basis: 4,
            max_tiles: 32,
            max_tile_cols: 8,
        },
        6 => LevelSpecification {
            id: Level::L5,
            max_picture_size: 8912896,
            max_horizontal: 4352,
            max_vertical: 8192,
            max_display_rate: 267386880,
            max_decode_rate: 273715200,
            max_header_rate: 300,
            max_bit_rate_main: 30_000_000,
            max_bit_rate_high: Some(100_000_000),
            min_comp_basis: 6,
            max_tiles: 64,
            max_tile_cols: 8,
        },
        7 => LevelSpecification {
            id: Level::L5_1,
            max_picture_size: 8912896,
            max_horizontal: 4352,
            max_vertical: 8192,
            max_display_rate: 534773760,
            max_decode_rate: 547430400,
            max_header_rate: 300,
            max_bit_rate_main: 40_000_000,
            max_bit_rate_high: Some(160_000_000),
            min_comp_basis: 8,
            max_tiles: 64,
            max_tile_cols: 8,
        },
        8 => LevelSpecification {
            id: Level::L5_2,
            max_picture_size: 8912896,
            max_horizontal: 4352,
            max_vertical: 8192,
            max_display_rate: 1069547520,
            max_decode_rate: 1094860800,
            max_header_rate: 300,
            max_bit_rate_main: 60_000_000,
            max_bit_rate_high: Some(240_000_000),
            min_comp_basis: 8,
            max_tiles: 64,
            max_tile_cols: 8,
        },
        9 => LevelSpecification {
            id: Level::L5_3,
            max_picture_size: 8912896,
            max_horizontal: 4352,
            max_vertical: 8192,
            max_display_rate: 1069547520,
            max_decode_rate: 1176502272,
            max_header_rate: 300,
            max_bit_rate_main: 60_000_000,
            max_bit_rate_high: Some(240_000_000),
            min_comp_basis: 8,
            max_tiles: 64,
            max_tile_cols: 8,
        },
        10 => LevelSpecification {
            id: Level::L6,
            max_picture_size: 35651584,
            max_horizontal: 8704,
            max_vertical: 16384,
            max_display_rate: 1069547520,
            max_decode_rate: 1176502272,
            max_header_rate: 300,
            max_bit_rate_main: 60_000_000,
            max_bit_rate_high: Some(240_000_000),
            min_comp_basis: 8,
            max_tiles: 128,
            max_tile_cols: 16,
        },
        11 => LevelSpecification {
            id: Level::L6_1,
            max_picture_size: 35651584,
            max_horizontal: 8704,
            max_vertical: 16384,
            max_display_rate: 2139095040,
            max_decode_rate: 2189721600,
            max_header_rate: 300,
            max_bit_rate_main: 100_000_000,
            max_bit_rate_high: Some(480_000_000),
            min_comp_basis: 8,
            max_tiles: 128,
            max_tile_cols: 16,
        },
        12 => LevelSpecification {
            id: Level::L6_2,
            max_picture_size: 35651584,
            max_horizontal: 8704,
            max_vertical: 16384,
            max_display_rate: 4278190080,
            max_decode_rate: 4379443200,
            max_header_rate: 300,
            max_bit_rate_main: 160_000_000,
            max_bit_rate_high: Some(800_000_000),
            min_comp_basis: 8,
            max_tiles: 128,
            max_tile_cols: 16,
        },
        _ => LevelSpecification {
            id: Level::L6_3,
            max_picture_size: 35651584,
            max_horizontal: 8704,
            max_vertical: 16384,
            max_display_rate: 4278190080,
            max_decode_rate: 4706009088,
            max_header_rate: 300,
            max_bit_rate_main: 160_000_000,
            max_bit_rate_high: Some(800_000_000),
            min_comp_basis: 8,
            max_tiles: 128,
            max_tile_cols: 16,
        },
    }
}

/// No limit of the record `after` is below that of the record `before`.
pub open spec fn no_limit_below(before: LevelSpecification, after: LevelSpecification) -> bool {
    &&& before.max_picture_size <= after.max_picture_size
    &&& before.max_horizontal <= after.max_horizontal
    &&& before.max_vertical <= after.max_vertical
    &&& before.max_display_rate <= after.max_display_rate
    &&& before.max_decode_rate <= after.max_decode_rate
    &&& before.max_header_rate <= after.max_header_rate
    &&& before.max_bit_rate_main <= after.max_bit_rate_main
    &&& high_tier_ordered(before.max_bit_rate_high, after.max_bit_rate_high)
    &&& before.max_tiles <= after.max_tiles
    &&& before.max_tile_cols <= after.max_tile_cols
}

/// The table holds one record for each level but `Reserved` and `Max`, at
/// the place of its rank, and no limit of a record is below that of a record
/// before it.
pub proof fn table_is_ordered(i: int, j: int)
    requires
        0 <= i <= j < LEVEL_COUNT,
    ensures
        level_details().len() == LEVEL_COUNT,
        level_details()[i].id.spec_rank() == i,
        no_limit_below(level_details()[i], level_details()[j]),
        i < j ==> level_details()[i].id.spec_rank() < level_details()[j].id.spec_rank(),
{
    let t = level_details();
    assert forall|k: int| 0 <= k < LEVEL_COUNT - 1 implies {
        &&& (#[trigger] t[k]).id.spec_rank() == k
        &&& no_limit_below(t[k], t[k + 1])
    } by {}
    assert(t[LEVEL_COUNT - 1].id.spec_rank() == LEVEL_COUNT - 1);
    steps_add_up(i, j);
}

proof fn steps_add_up(i: int, j: int)
    requires
        0 <= i <= j < LEVEL_COUNT,
        forall|k: int|
            0 <= k < LEVEL_COUNT - 1 ==> no_limit_below(
                #[trigger] level_details()[k],
                level_details()[k + 1],
            ),
    ensures
        no_limit_below(level_details()[i], level_details()[j]),
    decreases j - i,
{
    if i < j {
        steps_add_up(i, j - 1);
        assert(no_limit_below(level_details()[j - 1], level_details()[j - 1 + 1]));
    }
}

/// The whole table, in ascending capability.
pub fn level_table() -> (r: Vec<LevelSpecification>)
    ensures
        r@ == level_details(),
{
    let mut table: Vec<LevelSpecification> = Vec::new();
    let mut i: usize = 0;
    while i < LEVEL_COUNT
        invariant
            i <= LEVEL_COUNT,
            table@.len() == i,
            forall|k: int| 0 <= k < i ==> table@[k] == level_details()[k],
        decreases LEVEL_COUNT - i,
    {
        table.push(level_detail(i));
        i += 1;
    }
    proof {
        table_is_ordered(0, 0);
        assert(table@ =~= level_details());
    }
    table
}

/// The record that `get` gives for a level: the record of the table with that
/// level, and the last record where the table has none.
pub open spec fn spec_get(level: Level) -> LevelSpecification {
    if exists|i: int| 0 <= i < LEVEL_COUNT && (#[trigger] level_details()[i]).id == level {
        let i = choose|i: int| 0 <= i < LEVEL_COUNT && (#[trigger] level_details()[i]).id == level;
        level_details()[i]
    } else {
        level_details()[LEVEL_COUNT - 1]
    }
}

/// A level of the table has its record: `get` gives the record at the rank
/// of the level, and the record names the level. For `Reserved` and `Max`,
/// which the table does not hold, `get` gives the last record.
pub proof fn get_gives_the_level(level: Level)
    ensures
        level.spec_rank() < LEVEL_COUNT ==> {
            &&& spec_get(level) == level_details()[level.spec_rank() as int]
            &&& spec_get(level).id == level
        },
        level.spec_rank() >= LEVEL_COUNT ==> spec_get(level) == level_details()[LEVEL_COUNT - 1],
{
    if level.spec_rank() < LEVEL_COUNT {
        let r = level.spec_rank() as int;
        table_is_ordered(r, r);
        assert(level_details()[r].id.spec_rank() == level.spec_rank());
        assert(level_details()[r].id == level);
        let i = choose|i: int| 0 <= i < LEVEL_COUNT && (#[trigger] level_details()[i]).id == level;
        table_is_ordered(i, i);
    } else {
        assert forall|i: int| 0 <= i < LEVEL_COUNT implies (#[trigger] level_details()[i]).id
            != level by {
            table_is_ordered(i, i);
        }
    }
}

/// The record of a level, found by a scan of the table. A level that the
/// table does not hold gets the last record.
pub fn get(level: Level) -> (r: LevelSpecification)
    ensures
        r == spec_get(level),
        level.spec_rank() < LEVEL_COUNT ==> r.id == level,
{
    proof {
        get_gives_the_level(level);
    }
    let mut i: usize = 0;
    while i < LEVEL_COUNT
        invariant
            i <= LEVEL_COUNT,
            forall|k: int| 0 <= k < i ==> (#[trigger] level_details()[k]).id != level,
            level.spec_rank() < LEVEL_COUNT ==> {
                &&& spec_get(level) == level_details()[level.spec_rank() as int]
                &&& spec_get(level).id == level
            },
            level.spec_rank() >= LEVEL_COUNT ==> spec_get(level) == level_details()[LEVEL_COUNT
                - 1],
        decreases LEVEL_COUNT - i,
    {
        let l = level_detail(i);
        if l.id() == level {
            proof {
                table_is_ordered(i as int, i as int);
            }
            return l;
        }
        i += 1;
    }
    level_detail(LEVEL_COUNT - 1)
}

/// A workload and the bounds of a choice of level. `framerate` counts whole
/// pictures per second: a fractional rate is rounded up before it gets here.
/// The profile does not enter the choice: the bitrates of the table hold for
/// every profile.
#[derive(Debug, Clone, Copy, PartialEq, Eq, Structural)]
pub struct LevelSelector {
    pub width: u32,
    pub height: u32,
    pub framerate: u64,
    pub tier: Tier,
    pub profile: Profile,
    pub min_level: Option<Level>,
    pub max_level: Option<Level>,
    pub max_bitrate: Option<u32>,
}

impl LevelSelector {
    /// The selector that `new` gives: 1920x1080 at 30 pictures per second,
    /// Main tier and profile, no bound on level or bitrate.
    pub open spec fn spec_new() -> LevelSelector {
        LevelSelector {
            width: 1920,
            height: 1080,
            framerate: 30,
            tier: Tier::Main,
            profile: Profile::Main,
            min_level: None,
            max_level: None,
            max_bitrate: None,
        }
    }

    /// Samples of one picture of the workload.
    pub open spec fn samples(self) -> nat {
        self.width as nat * self.height as nat
    }

    /// Samples per second that the workload asks for.
    pub open spec fn demand(self) -> nat {
        self.samples() * self.framerate as nat
    }

    /// The level has the picture size, the display rate, the width, the
    /// height and the header rate that the workload asks for.
    pub open spec fn has_capacity(self, level: LevelSpecification) -> bool {
        &&& self.samples() <= level.max_picture_size
        &&& self.demand() <= level.max_display_rate
        &&& self.width <= level.max_horizontal
        &&& self.height <= level.max_vertical
        &&& self.framerate <= level.max_header_rate
    }

    /// The level has a bitrate for the tier, and where a bitrate is asked
    /// for, at least that.
    pub open spec fn has_bitrate(self, level: LevelSpecification) -> bool {
        match level.spec_max_bit_rate(self.tier) {
            Some(available) => match self.max_bitrate {
                Some(wanted) => available >= wanted,
                None => true,
            },
            None => false,
        }
    }

    /// The level is not below the lower bound, where there is one.
    pub open spec fn reaches_floor(self, level: LevelSpecification) -> bool {
        match self.min_level {
            Some(min) => level.id.spec_rank() >= min.spec_rank(),
            None => true,
        }
    }

    /// The level is not above the upper bound, where there is one.
    pub open spec fn within_ceiling(self, level: LevelSpecification) -> bool {
        match self.max_level {
            Some(max) => level.id.spec_rank() <= max.spec_rank(),
            None => true,
        }
    }

    /// The scan stops at this level: it has the capacity and the bitrate and
    /// reaches the lower bound.
    pub open spec fn qualifies(self, level: LevelSpecification) -> bool {
        self.has_capacity(level) && self.has_bitrate(level) && self.reaches_floor(level)
    }

    /// Place of the first record from `start` on that qualifies, and
    /// `LEVEL_COUNT` where none does.
    pub open spec fn first_qualifying(self, start: int) -> int
        decreases LEVEL_COUNT - start,
    {
        if start < 0 || start >= LEVEL_COUNT {
            LEVEL_COUNT as int
        } else if self.qualifies(level_details()[start]) {
            start
        } else {
            self.first_qualifying(start + 1)
        }
    }

    /// The record that the scan settles on: the first that qualifies, and
    /// the last record of the table where none does.
    pub open spec fn chosen(self) -> LevelSpecification {
        let i = self.first_qualifying(0);
        if i < LEVEL_COUNT {
            level_details()[i]
        } else {
            level_details()[LEVEL_COUNT - 1]
        }
    }

    /// The result of `select`: the record that the scan settles on, unless
    /// it is above the upper bound.
    pub open spec fn spec_select(self) -> Option<LevelSpecification> {
        if self.within_ceiling(self.chosen()) {
            Some(self.chosen())
        } else {
            None
        }
    }

    /// 1920x1080 at 30 pictures per second, no bound on level or bitrate.
    pub fn new() -> (r: Self)
        ensures
            r == Self::spec_new(),
    {
        Self {
            // Define default behaviour if no constraints are set
            width: 1920,
            height: 1080,
            framerate: 30,
            tier: Tier::Main,
            profile: Profile::Main,
            // Ignore if not set
            min_level: None,
            max_level: None,
            max_bitrate: None,
        }
    }

    pub fn width(self, width: u32) -> (r: Self)
        ensures
            r == (LevelSelector { width, ..self }),
    {
        LevelSelector { width, ..self }
    }

    pub fn height(self, height: u32) -> (r: Self)
        ensures
            r == (LevelSelector { height, ..self }),
    {
        LevelSelector { height, ..self }
    }

    /// Sets the pictures per second, as a whole number.
    pub fn framerate(self, framerate: u64) -> (r: Self)
        ensures
            r == (LevelSelector { framerate, ..self }),
    {
        LevelSelector { framerate, ..self }
    }

    /// Sets both bounds on the level: `min` is a floor for the scan, `max` a
    /// ceiling for its result.
    pub fn clamp(self, min: Level, max: Level) -> (r: Self)
        ensures
            r == (LevelSelector { min_level: Some(min), max_level: Some(max), ..self }),
    {
        LevelSelector { min_level: Some(min), max_level: Some(max), ..self }
    }

    /// Asks for a level that allows at least this bitrate.
    pub fn max_bitrate(self, max_bitrate: u32) -> (r: Self)
        ensures
            r == (LevelSelector { max_bitrate: Some(max_bitrate), ..self }),
    {
        LevelSelector { max_bitrate: Some(max_bitrate), ..self }
    }

    pub fn tier(self, tier: Tier) -> (r: Self)
        ensures
            r == (LevelSelector { tier, ..self }),
    {
        LevelSelector { tier, ..self }
    }

    pub fn profile(self, profile: Profile) -> (r: Self)
        ensures
            r == (LevelSelector { profile, ..self }),
    {
        LevelSelector { profile, ..self }
    }

    /// Whether `select` stops at a record: the executable form of
    /// `qualifies`, on the demand computed once for the scan.
    fn stops_at(&self, samples: u64, display_rate: u128, level: &LevelSpecification) -> (r: bool)
        requires
            samples == self.samples(),
            display_rate == self.demand(),
        ensures
            r == self.qualifies(*level),
    {
        if !(samples <= level.max_picture_size() && display_rate <= level.max_display_rate() as u128
            && self.width <= level.max_width() && self.height <= level.max_height()
            && self.framerate <= level.max_header_rate() as u64) {
            return false;
        }
        let fits = match (self.max_bitrate, level.max_bit_rate(self.tier)) {
            (Some(bitrate_constraint), Some(level_max_bitrate)) => level_max_bitrate
                >= bitrate_constraint as u64,
            (None, Some(_)) => true,
            _ => false,
        };
        if !fits {
            return false;
        }
        // Clamp to min level
        match self.min_level {
            Some(min) => level.id().rank() >= min.rank(),
            None => true,
        }
    }

    /// The record, unless it is above the upper bound.
    fn unless_above_ceiling(&self, chosen: LevelSpecification) -> (r: Option<LevelSpecification>)
        ensures
            r == if self.within_ceiling(chosen) {
                Some(chosen)
            } else {
                None
            },
    {
        // Check if exceeds max level
        match self.max_level {
            Some(max) => if chosen.id().rank() > max.rank() {
                None
            } else {
                Some(chosen)
            },
            None => Some(chosen),
        }
    }

    /// The lowest level of the table that accommodates the workload. Where no
    /// record does, the last record of the table stands in. `None` where the
    /// record found is above the upper bound.
    pub fn select(self) -> (r: Option<LevelSpecification>)
        ensures
            r == self.spec_select(),
    {
        assert(self.width as nat * self.height as nat <= 0xffff_ffff * 0xffff_ffff)
            by (nonlinear_arith)
            requires
                self.width <= 0xffff_ffff,
                self.height <= 0xffff_ffff,
        ;
        let samples: u64 = self.width as u64 * self.height as u64;
        assert(samples * self.framerate as nat <= 0xffff_ffff * 0xffff_ffff
            * 0xffff_ffff_ffff_ffff) by (nonlinear_arith)
            requires
                samples <= 0xffff_ffff * 0xffff_ffff,
                self.framerate <= 0xffff_ffff_ffff_ffff,
        ;
        let display_rate: u128 = samples as u128 * self.framerate as u128;
        let mut i: usize = 0;
        while i < LEVEL_COUNT
            invariant
                i <= LEVEL_COUNT,
                samples == self.samples(),
                display_rate == self.demand(),
                self.first_qualifying(0) == self.first_qualifying(i as int),
            decreases LEVEL_COUNT - i,
        {
            let level = level_detail(i);
            if self.stops_at(samples, display_rate, &level) {
                return self.unless_above_ceiling(level);
            }
            i += 1;
        }
        self.unless_above_ceiling(level_detail(LEVEL_COUNT - 1))
    }
}

/// What `first_qualifying` finds: a place from `start` on; the record there
/// qualifies; no record between `start` and it does.
pub proof fn first_qualifying_is_first(s: LevelSelector, start: int)
    requires
        0 <= start <= LEVEL_COUNT,
    ensures
        start <= s.first_qualifying(start) <= LEVEL_COUNT,
        s.first_qualifying(start) < LEVEL_COUNT ==> s.qualifies(
            level_details()[s.first_qualifying(start)],
        ),
        forall|k: int|
            start <= k < s.first_qualifying(start) ==> !s.qualifies(#[trigger] level_details()[k]),
    decreases LEVEL_COUNT - start,
{
    if start < LEVEL_COUNT && !s.qualifies(level_details()[start]) {
        first_qualifying_is_first(s, start + 1);
    }
}

/// `select` finds the least sufficient level. A record that it returns
/// either qualifies, and then no record before it does, or it is the last
/// record of the table, and then no record qualifies at all.
pub proof fn select_is_minimal(s: LevelSelector, found: LevelSpecification)
    requires
        s.spec_select() == Some(found),
    ensures
        found.id.spec_rank() < LEVEL_COUNT,
        found == level_details()[found.id.spec_rank() as int],
        forall|k: int|
            0 <= k < found.id.spec_rank() ==> !s.qualifies(#[trigger] level_details()[k]),
        s.qualifies(found) || (found == level_details()[LEVEL_COUNT - 1] && forall|k: int|
            0 <= k < LEVEL_COUNT ==> !s.qualifies(#[trigger] level_details()[k])),
{
    first_qualifying_is_first(s, 0);
    let i = s.first_qualifying(0);
    if i < LEVEL_COUNT {
        table_is_ordered(i, i);
    } else {
        table_is_ordered(LEVEL_COUNT - 1, LEVEL_COUNT - 1);
    }
}

/// Capacity and bitrate do not fall along the table: what a record has for a
/// workload, every later record has.
pub proof fn capacity_and_bitrate_are_kept(s: LevelSelector, i: int, j: int)
    requires
        0 <= i <= j < LEVEL_COUNT,
    ensures
        s.has_capacity(level_details()[i]) ==> s.has_capacity(level_details()[j]),
        s.has_bitrate(level_details()[i]) ==> s.has_bitrate(level_details()[j]),
        s.reaches_floor(level_details()[i]) ==> s.reaches_floor(level_details()[j]),
{
    table_is_ordered(i, j);
    table_is_ordered(j, j);
}

/// An upper bound below the level that the workload needs gives no level:
/// where the selector without its bounds settles on a level above `max`, the
/// selector with the upper bound `max`, whatever its lower bound, returns
/// `None`.
pub proof fn ceiling_below_need_gives_none(s: LevelSelector, max: Level)
    requires
        s.max_level == Some(max),
        (LevelSelector { min_level: None, max_level: None, ..s }).chosen().id.spec_rank()
            > max.spec_rank(),
    ensures
        s.spec_select().is_none(),
{
    let free = LevelSelector { min_level: None, max_level: None, ..s };
    first_qualifying_is_first(s, 0);
    first_qualifying_is_first(free, 0);
    let i = s.first_qualifying(0);
    let j = free.first_qualifying(0);
    if i < LEVEL_COUNT {
        assert(free.qualifies(level_details()[i]));
        assert(j <= i);
        table_is_ordered(j, i);
    } else {
        table_is_ordered(LEVEL_COUNT - 1, LEVEL_COUNT - 1);
        if j < LEVEL_COUNT {
            table_is_ordered(j, LEVEL_COUNT - 1);
        }
    }
}

/// With a lower bound that is not above the upper bound, `select` returns
/// `None` in no other case: where the selector without its bounds settles on
/// a level that is not above `max`, the selector with its bounds returns a
/// level.
pub proof fn ceiling_at_need_gives_some(s: LevelSelector, max: Level)
    requires
        s.max_level == Some(max),
        match s.min_level {
            Some(min) => min.spec_rank() <= max.spec_rank(),
            None => true,
        },
        (LevelSelector { min_level: None, max_level: None, ..s }).chosen().id.spec_rank()
            <= max.spec_rank(),
    ensures
        s.spec_select().is_some(),
{
    let free = LevelSelector { min_level: None, max_level: None, ..s };
    first_qualifying_is_first(s, 0);
    first_qualifying_is_first(free, 0);
    let i = s.first_qualifying(0);
    let j = free.first_qualifying(0);
    table_is_ordered(LEVEL_COUNT - 1, LEVEL_COUNT - 1);
    if i < LEVEL_COUNT {
        table_is_ordered(i, i);
        assert(free.qualifies(level_details()[i]));
        table_is_ordered(j, j);
        if i > j {
            // the floor alone kept the scan from stopping before `i`
            capacity_and_bitrate_are_kept(free, j, i - 1);
            assert(free.qualifies(level_details()[i - 1]));
            assert(!s.qualifies(level_details()[i - 1]));
            table_is_ordered(i - 1, i - 1);
        }
    } else if j < LEVEL_COUNT {
        // the floor is above every record that qualifies without it
        capacity_and_bitrate_are_kept(free, j, LEVEL_COUNT - 1);
        assert(free.qualifies(level_details()[LEVEL_COUNT - 1]));
        assert(!s.qualifies(level_details()[LEVEL_COUNT - 1]));
    }
}

/// A lower bound is a floor: a level that `select` returns under the lower
/// bound `min` is never below `min`. `Reserved` and `Max` have no record,
/// and under such a lower bound the last record of the table is returned.
pub proof fn floor_is_kept(s: LevelSelector, min: Level)
    requires
        s.min_level == Some(min),
        min.spec_rank() < LEVEL_COUNT,
        s.spec_select().is_some(),
    ensures
        s.spec_select().unwrap().id.spec_rank() >= min.spec_rank(),
{
    first_qualifying_is_first(s, 0);
    table_is_ordered(LEVEL_COUNT - 1, LEVEL_COUNT - 1);
}

/// A lower bound below the level that the workload needs changes nothing:
/// where the selector without a lower bound settles on a level that is not
/// below `min`, the selector with the lower bound `min` settles on the same.
pub proof fn floor_below_need_changes_nothing(s: LevelSelector, min: Level)
    requires
        s.min_level == Some(min),
        (LevelSelector { min_level: None, ..s }).chosen().id.spec_rank() >= min.spec_rank(),
    ensures
        s.spec_select() == (LevelSelector { min_level: None, ..s }).spec_select(),
{
    let free = LevelSelector { min_level: None, ..s };
    first_qualifying_is_first(s, 0);
    first_qualifying_is_first(free, 0);
    let i = s.first_qualifying(0);
    let j = free.first_qualifying(0);
    if i < LEVEL_COUNT {
        assert(free.qualifies(level_details()[i]));
    }
    if j < LEVEL_COUNT {
        table_is_ordered(j, j);
        assert(s.qualifies(level_details()[j]));
    }
}

/// A workload beyond every level falls back to the top of the table: where
/// there is no upper bound, and the workload asks for more than the last
/// record has, in capacity or in bitrate, `select` returns the last record.
pub proof fn beyond_every_level_gives_top(s: LevelSelector)
    requires
        s.max_level.is_none(),
        !s.has_capacity(level_details()[LEVEL_COUNT - 1]) || !s.has_bitrate(
            level_details()[LEVEL_COUNT - 1],
        ),
    ensures
        s.spec_select() == Some(level_details()[LEVEL_COUNT - 1]),
{
    first_qualifying_is_first(s, 0);
    let i = s.first_qualifying(0);
    if i < LEVEL_COUNT {
        capacity_and_bitrate_are_kept(s, i, LEVEL_COUNT - 1);
        assert(s.qualifies(level_details()[i]));
    }
}

/// More pictures per second never give a lower level: of two selectors that
/// differ in the frame rate alone, the one with the higher rate settles on a
/// level of at least the rank of the other.
pub proof fn select_is_monotonic_in_framerate(s: LevelSelector, faster: u64)
    requires
        s.framerate <= faster,
    ensures
        s.chosen().id.spec_rank() <= (LevelSelector {
            framerate: faster,
            ..s
        }).chosen().id.spec_rank(),
{
    let f = LevelSelector { framerate: faster, ..s };
    first_qualifying_is_first(s, 0);
    first_qualifying_is_first(f, 0);
    let i = s.first_qualifying(0);
    let j = f.first_qualifying(0);
    assert(s.demand() <= f.demand()) by (nonlinear_arith)
        requires
            s.demand() == s.samples() * s.framerate as nat,
            f.demand() == s.samples() * faster as nat,
            s.framerate <= faster,
    ;
    table_is_ordered(LEVEL_COUNT - 1, LEVEL_COUNT - 1);
    if j < LEVEL_COUNT {
        assert(s.qualifies(level_details()[j]));
        assert(i <= j);
        table_is_ordered(i, j);
    } else if i < LEVEL_COUNT {
        table_is_ordered(i, LEVEL_COUNT - 1);
    }
}

/// The profile does not enter the choice: two selectors that differ in the
/// profile alone get the same result.
pub proof fn profile_is_ignored(s: LevelSelector, profile: Profile)
    ensures
        (LevelSelector { profile, ..s }).spec_select() == s.spec_select(),
{
    same_scan_for_every_profile(s, profile, 0);
}

proof fn same_scan_for_every_profile(s: LevelSelector, profile: Profile, start: int)
    requires
        0 <= start <= LEVEL_COUNT,
    ensures
        (LevelSelector { profile, ..s }).first_qualifying(start) == s.first_qualifying(start),
    decreases LEVEL_COUNT - start,
{
    if start < LEVEL_COUNT {
        same_scan_for_every_profile(s, profile, start + 1);
    }
}

} // verus!
