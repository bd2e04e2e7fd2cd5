//! H.264/AVC levels and profiles, after Annex A of the recommendation: the
//! table of levels, the bitrate that a profile allows at a level, the frames
//! that the decoded picture buffer holds, and the choice of the lowest level
//! for a workload.
use crate::common::BitrateMultiplier;
use crate::common::ProfileConstraint;
use vstd::prelude::*;
use yuv::color::Depth;

verus! {

#[derive(Debug, Clone, Copy, PartialEq, Eq, PartialOrd, Ord, Structural)]
pub enum Profile {
    Baseline,
    Main,
    Extended,
    High,
    High10,
    High10Intra,
    High422,
    High422Intra,
    High444,
    High444Intra,
    CAVLC444Intra,
}

/// The levels in ascending capability. The order of the variants is the order
/// of the table; `level_idc`, the value that a bitstream carries, is another
/// number, see `usize` and `from`.
#[derive(Debug, Clone, Copy, PartialEq, Eq, PartialOrd, Ord, Structural)]
pub enum Level {
    L1,
    L1b,
    L1_1,
    L1_2,
    L1_3,
    L2,
    L2_1,
    L2_2,
    L3,
    L3_1,
    L3_2,
    L4,
    L4_1,
    L4_2,
    L5,
    L5_1,
    L5_2,
    L6,
    L6_1,
    L6_2,
}

/// Number of records in the table of levels.
pub const LEVEL_COUNT: usize = 20;

/// The most frames that a decoded picture buffer holds.
pub const MAX_DPB_FRAMES: u32 = 16;

impl Profile {
    /// What the profile allows: its greatest bit depth and its set of chroma
    /// formats.
    pub open spec fn spec_constraint(self) -> ProfileConstraint {
        match self {
            Profile::Baseline | Profile::Main | Profile::Extended => ProfileConstraint {
                max_bit_depth: Depth::Depth8,
                cs420: true,
                cs422: false,
                cs444: false,
                mono_chrome: false,
            },
            Profile::High => ProfileConstraint {
                max_bit_depth: Depth::Depth8,
                cs420: true,
                cs422: false,
                cs444: false,
                mono_chrome: true,
            },
            Profile::High10 | Profile::High10Intra => ProfileConstraint {
                max_bit_depth: Depth::Depth10,
                cs420: true,
                cs422: false,
                cs444: false,
                mono_chrome: true,
            },
            Profile::High422 | Profile::High422Intra => ProfileConstraint {
                max_bit_depth: Depth::Depth10,
                cs420: true,
                cs422: true,
                cs444: false,
                mono_chrome: true,
            },
            Profile::High444 | Profile::High444Intra | Profile::CAVLC444Intra => ProfileConstraint {
                max_bit_depth: Depth::Depth16,
                cs420: true,
                cs422: true,
                cs444: true,
                mono_chrome: true,
            },
        }
    }

    /// The factor of the profile on the bitrate of the Baseline, Main and
    /// Extended profiles (cpbBrVclFactor): 1, 1.25 for High, 3 for the
    /// High 10 profiles and 4 for the 4:2:2 and 4:4:4 profiles.
    pub open spec fn spec_bitrate_multiplier(self) -> BitrateMultiplier {
        match self {
            Profile::Baseline | Profile::Main | Profile::Extended => BitrateMultiplier {
                quarters: 4,
            },
            Profile::High => BitrateMultiplier { quarters: 5 },
            Profile::High10 | Profile::High10Intra => BitrateMultiplier { quarters: 12 },
            Profile::High422 | Profile::High422Intra => BitrateMultiplier { quarters: 16 },
            Profile::High444 | Profile::High444Intra | Profile::CAVLC444Intra => BitrateMultiplier {
                quarters: 16,
            },
        }
    }

    pub fn constraint(&self) -> (r: ProfileConstraint)
        ensures
            r == self.spec_constraint(),
    {
        match self {
            Profile::Baseline | Profile::Main | Profile::Extended => ProfileConstraint {
                max_bit_depth: Depth::Depth8,
                cs420: true,
                cs422: false,
                cs444: false,
                mono_chrome: false,
            },
            Profile::High => ProfileConstraint {
                max_bit_depth: Depth::Depth8,
                cs420: true,
                cs422: false,
                cs444: false,
                mono_chrome: true,
            },
            Profile::High10 | Profile::High10Intra => ProfileConstraint {
                max_bit_depth: Depth::Depth10,
                cs420: true,
                cs422: false,
                cs444: false,
                mono_chrome: true,
            },
            Profile::High422 | Profile::High422Intra => ProfileConstraint {
                max_bit_depth: Depth::Depth10,
                cs420: true,
                cs422: true,
                cs444: false,
                mono_chrome: true,
            },
            Profile::High444 | Profile::High444Intra | Profile::CAVLC444Intra => ProfileConstraint {
                max_bit_depth: Depth::Depth16,
                cs420: true,
                cs422: true,
                cs444: true,
                mono_chrome: true,
            },
        }
    }

    /// Returns the cpbBrVclFactor multiplier relative to the Baseline/Main/Extended base bitrate
    pub fn bitrate_multiplier(&self) -> (r: BitrateMultiplier)
        ensures
            r == self.spec_bitrate_multiplier(),
    {
        match self {
            Profile::Baseline | Profile::Main | Profile::Extended => BitrateMultiplier {
                quarters: 4,
            },
            Profile::High => BitrateMultiplier { quarters: 5 },
            Profile::High10 | Profile::High10Intra => BitrateMultiplier { quarters: 12 },
            Profile::High422 | Profile::High422Intra => BitrateMultiplier { quarters: 16 },
            Profile::High444 | Profile::High444Intra | Profile::CAVLC444Intra => BitrateMultiplier {
                quarters: 16,
            },
        }
    }
}

impl From<&Profile> for ProfileConstraint {
    fn from(profile: &Profile) -> (r: Self) {
        profile.constraint()
    }
}

impl vstd::std_specs::convert::FromSpecImpl<&Profile> for ProfileConstraint {
    open spec fn obeys_from_spec() -> bool {
        true
    }

    open spec fn from_spec(profile: &Profile) -> Self {
        profile.spec_constraint()
    }
}

impl Level {
    /// Place of the level in the order of capability, from 0.
    pub open spec fn spec_rank(self) -> nat {
        match self {
            Level::L1 => 0,
            Level::L1b => 1,
            Level::L1_1 => 2,
            Level::L1_2 => 3,
            Level::L1_3 => 4,
            Level::L2 => 5,
            Level::L2_1 => 6,
            Level::L2_2 => 7,
            Level::L3 => 8,
            Level::L3_1 => 9,
            Level::L3_2 => 10,
            Level::L4 => 11,
            Level::L4_1 => 12,
            Level::L4_2 => 13,
            Level::L5 => 14,
            Level::L5_1 => 15,
            Level::L5_2 => 16,
            Level::L6 => 17,
            Level::L6_1 => 18,
            Level::L6_2 => 19,
        }
    }

    /// The `level_idc` of the level: ten times the level number, and 9 for
    /// level 1b.
    pub open spec fn spec_usize(self) -> usize {
        match self {
            Level::L1 => 10,
            Level::L1b => 9,
            Level::L1_1 => 11,
            Level::L1_2 => 12,
            Level::L1_3 => 13,
            Level::L2 => 20,
            Level::L2_1 => 21,
            Level::L2_2 => 22,
            Level::L3 => 30,
            Level::L3_1 => 31,
            Level::L3_2 => 32,
            Level::L4 => 40,
            Level::L4_1 => 41,
            Level::L4_2 => 42,
            Level::L5 => 50,
            Level::L5_1 => 51,
            Level::L5_2 => 52,
            Level::L6 => 60,
            Level::L6_1 => 61,
            Level::L6_2 => 62,
        }
    }

    /// The level that a bitstream value stands for: the level with that
    /// value, and the top level for any other value.
    pub open spec fn spec_from(value: usize) -> Level {
        if value == 10 {
            Level::L1
        } else if value == 9 {
            Level::L1b
        } else if value == 11 {
            Level::L1_1
        } else if value == 12 {
            Level::L1_2
        } else if value == 13 {
            Level::L1_3
        } else if value == 20 {
            Level::L2
        } else if value == 21 {
            Level::L2_1
        } else if value == 22 {
            Level::L2_2
        } else if value == 30 {
            Level::L3
        } else if value == 31 {
            Level::L3_1
        } else if value == 32 {
            Level::L3_2
        } else if value == 40 {
            Level::L4
        } else if value == 41 {
            Level::L4_1
        } else if value == 42 {
            Level::L4_2
        } else if value == 50 {
            Level::L5
        } else if value == 51 {
            Level::L5_1
        } else if value == 52 {
            Level::L5_2
        } else if value == 60 {
            Level::L6
        } else if value == 61 {
            Level::L6_1
        } else {
            Level::L6_2
        }
    }

    /// The name of the level in print.
    pub open spec fn spec_name(self) -> Seq<char> {
        match self {
            Level::L1 => "1"@,
            Level::L1b => "1b"@,
            Level::L1_1 => "1.1"@,
            Level::L1_2 => "1.2"@,
            Level::L1_3 => "1.3"@,
            Level::L2 => "2"@,
            Level::L2_1 => "2.1"@,
            Level::L2_2 => "2.2"@,
            Level::L3 => "3"@,
            Level::L3_1 => "3.1"@,
            Level::L3_2 => "3.2"@,
            Level::L4 => "4"@,
            Level::L4_1 => "4.1"@,
            Level::L4_2 => "4.2"@,
            Level::L5 => "5"@,
            Level::L5_1 => "5.1"@,
            Level::L5_2 => "5.2"@,
            Level::L6 => "6"@,
            Level::L6_1 => "6.1"@,
            Level::L6_2 => "6.2"@,
        }
    }

    /// Place of the level in the order of capability, from 0.
    pub fn rank(&self) -> (r: usize)
        ensures
            r == self.spec_rank(),
            r < 20,
    {
        match self {
            Level::L1 => 0,
            Level::L1b => 1,
            Level::L1_1 => 2,
            Level::L1_2 => 3,
            Level::L1_3 => 4,
            Level::L2 => 5,
            Level::L2_1 => 6,
            Level::L2_2 => 7,
            Level::L3 => 8,
            Level::L3_1 => 9,
            Level::L3_2 => 10,
            Level::L4 => 11,
            Level::L4_1 => 12,
            Level::L4_2 => 13,
            Level::L5 => 14,
            Level::L5_1 => 15,
            Level::L5_2 => 16,
            Level::L6 => 17,
            Level::L6_1 => 18,
            Level::L6_2 => 19,
        }
    }

    /// The value that a bitstream carries for the level.
    pub fn usize(&self) -> (r: usize)
        ensures
            r == self.spec_usize(),
    {
        match self {
            Level::L1 => 10,
            Level::L1b => 9,
            Level::L1_1 => 11,
            Level::L1_2 => 12,
            Level::L1_3 => 13,
            Level::L2 => 20,
            Level::L2_1 => 21,
            Level::L2_2 => 22,
            Level::L3 => 30,
            Level::L3_1 => 31,
            Level::L3_2 => 32,
            Level::L4 => 40,
            Level::L4_1 => 41,
            Level::L4_2 => 42,
            Level::L5 => 50,
            Level::L5_1 => 51,
            Level::L5_2 => 52,
            Level::L6 => 60,
            Level::L6_1 => 61,
            Level::L6_2 => 62,
        }
    }

    /// The name of the level in print.
    pub fn name(&self) -> (r: &'static str)
        ensures
            r@ == self.spec_name(),
    {
        match self {
            Level::L1 => "1",
            Level::L1b => "1b",
            Level::L1_1 => "1.1",
            Level::L1_2 => "1.2",
            Level::L1_3 => "1.3",
            Level::L2 => "2",
            Level::L2_1 => "2.1",
            Level::L2_2 => "2.2",
            Level::L3 => "3",
            Level::L3_1 => "3.1",
            Level::L3_2 => "3.2",
            Level::L4 => "4",
            Level::L4_1 => "4.1",
            Level::L4_2 => "4.2",
            Level::L5 => "5",
            Level::L5_1 => "5.1",
            Level::L5_2 => "5.2",
            Level::L6 => "6",
            Level::L6_1 => "6.1",
            Level::L6_2 => "6.2",
        }
    }
}

/// Decodes the value that a bitstream carries for a level. A value that
/// stands for no level gives the top level.
impl From<usize> for Level {
    fn from(value: usize) -> (r: Self) {
        match value {
            10 => Level::L1,
            9 => Level::L1b,
            11 => Level::L1_1,
            12 => Level::L1_2,
            13 => Level::L1_3,
            20 => Level::L2,
            21 => Level::L2_1,
            22 => Level::L2_2,
            30 => Level::L3,
            31 => Level::L3_1,
            32 => Level::L3_2,
            40 => Level::L4,
            41 => Level::L4_1,
            42 => Level::L4_2,
            50 => Level::L5,
            51 => Level::L5_1,
            52 => Level::L5_2,
            60 => Level::L6,
            61 => Level::L6_1,
            62 => Level::L6_2,
            _ => Level::L6_2,
        }
    }
}

impl vstd::std_specs::convert::FromSpecImpl<usize> for Level {
    open spec fn obeys_from_spec() -> bool {
        true
    }

    open spec fn from_spec(value: usize) -> Self {
        Level::spec_from(value)
    }
}

/// Decoding the value of a level gives that level back.
pub proof fn wire_value_round_trip(level: Level)
    ensures
        Level::spec_from(level.spec_usize()) == level,
{
}

/// A value that is the value of no level decodes to the top level.
pub proof fn unknown_wire_value_is_top(value: usize)
    requires
        forall|level: Level| #[trigger] level.spec_usize() != value,
    ensures
        Level::spec_from(value) == Level::L6_2,
{
    assert(Level::L1.spec_usize() != value);
    assert(Level::L1b.spec_usize() != value);
    assert(Level::L1_1.spec_usize() != value);
    assert(Level::L1_2.spec_usize() != value);
    assert(Level::L1_3.spec_usize() != value);
    assert(Level::L2.spec_usize() != value);
    assert(Level::L2_1.spec_usize() != value);
    assert(Level::L2_2.spec_usize() != value);
    assert(Level::L3.spec_usize() != value);
    assert(Level::L3_1.spec_usize() != value);
    assert(Level::L3_2.spec_usize() != value);
    assert(Level::L4.spec_usize() != value);
    assert(Level::L4_1.spec_usize() != value);
    assert(Level::L4_2.spec_usize() != value);
    assert(Level::L5.spec_usize() != value);
    assert(Level::L5_1.spec_usize() != value);
    assert(Level::L5_2.spec_usize() != value);
    assert(Level::L6.spec_usize() != value);
    assert(Level::L6_1.spec_usize() != value);
    assert(Level::L6_2.spec_usize() != value);
}

/// Macroblocks of 16 by 16 samples that cover a picture of `width` by
/// `height` samples.
pub open spec fn spec_frame_mbs(width: u32, height: u32) -> nat {
    (((width + 15) / 16) * ((height + 15) / 16)) as nat
}

/// Macroblocks of 16 by 16 samples that cover a picture.
pub fn frame_mbs(width: u32, height: u32) -> (r: u64)
    ensures
        r == spec_frame_mbs(width, height),
        r <= 0x1000_0000 * 0x1000_0000,
{
    let width_mbs: u64 = (width as u64 + 15) / 16;
    let height_mbs: u64 = (height as u64 + 15) / 16;
    assert(width_mbs * height_mbs <= 0x1000_0000 * 0x1000_0000) by (nonlinear_arith)
        requires
            width_mbs <= 0x1000_0000,
            height_mbs <= 0x1000_0000,
    ;
    width_mbs * height_mbs
}

/// The limits of one level.
#[derive(Debug, Clone, Copy, PartialEq, Eq, Structural)]
pub struct LevelSpecification {
    pub id: Level,
    /// MaxMBPS (macroblocks per second)
    pub max_macroblock_rate: u64,
    /// MaxFS (max frame size in macroblocks)
    pub max_frame_size_mbs: u32,
    /// MaxBR in kbit/s (base value for Baseline/Main/Extended profiles)
    pub max_bit_rate: u32,
    /// MaxDpbMbs (max decoded picture buffer in macroblocks)
    pub max_dpb_mbs: u32,
}

impl LevelSpecification {
    /// The bitrate that the level allows for a profile, in kbit/s: the base
    /// figure times the factor of the profile, rounded down.
    pub open spec fn spec_max_bit_rate(self, profile: Profile) -> nat {
        profile.spec_bitrate_multiplier().spec_scale(self.max_bit_rate)
    }

    /// Frames that the decoded picture buffer holds for pictures of
    /// `frame_mbs` macroblocks: the macroblocks of the buffer divided by those
    /// of a frame, rounded down, and no more than 16.
    pub open spec fn spec_max_dpb_frames(self, frame_mbs: nat) -> nat {
        if frame_mbs == 0 || self.max_dpb_mbs as nat / frame_mbs >= 16 {
            16
        } else {
            self.max_dpb_mbs as nat / frame_mbs
        }
    }

    /// The level that the record describes.
    pub fn id(&self) -> (r: Level)
        ensures
            r == self.id,
    {
        self.id
    }

    pub fn max_macroblock_rate(&self) -> (r: u64)
        ensures
            r == self.max_macroblock_rate,
    {
        self.max_macroblock_rate
    }

    pub fn max_frame_size_mbs(&self) -> (r: u32)
        ensures
            r == self.max_frame_size_mbs,
    {
        self.max_frame_size_mbs
    }

    /// Returns max bitrate in kbit/s, scaled by the profile's cpbBrVclFactor
    pub fn max_bit_rate(&self, profile: Profile) -> (r: u64)
        ensures
            r == self.spec_max_bit_rate(profile),
    {
        profile.bitrate_multiplier().scale(self.max_bit_rate)
    }

    pub fn max_dpb_mbs(&self) -> (r: u32)
        ensures
            r == self.max_dpb_mbs,
    {
        self.max_dpb_mbs
    }

    /// Returns the maximum number of decoded picture buffer frames for the given resolution
    /// Formula: min(floor(MaxDpbMbs / (ceil(w/16) * ceil(h/16))), 16)
    pub fn max_dpb_frames(&self, width: u32, height: u32) -> (r: u32)
        ensures
            r == self.spec_max_dpb_frames(spec_frame_mbs(width, height)),
    {
        let frame_mbs: u64 = frame_mbs(width, height);
        if frame_mbs == 0 {
            return MAX_DPB_FRAMES;
        }
        let frames: u64 = self.max_dpb_mbs as u64 / frame_mbs;
        if frames >= MAX_DPB_FRAMES as u64 {
            MAX_DPB_FRAMES
        } else {
            frames as u32
        }
    }
}

/// The buffer never holds more frames for a larger picture: of two pictures
/// at one level, the one with no more macroblocks gets at least as many
/// frames, and never more than 16.
pub proof fn dpb_frames_are_monotonic(level: LevelSpecification, smaller: nat, larger: nat)
    requires
        smaller <= larger,
    ensures
        level.spec_max_dpb_frames(smaller) >= level.spec_max_dpb_frames(larger),
        level.spec_max_dpb_frames(larger) <= 16,
{
    if smaller > 0 {
        vstd::arithmetic::div_mod::lemma_div_is_ordered_by_denominator(
            level.max_dpb_mbs as int,
            smaller as int,
            larger as int,
        );
    }
}

/// The table of levels, in ascending capability.
pub open spec fn level_details() -> Seq<LevelSpecification> {
    seq![
        LevelSpecification {
            id: Level::L1,
            max_macroblock_rate: 1_485,
            max_frame_size_mbs: 99,
            max_bit_rate: 64,
            max_dpb_mbs: 396,
        },
        LevelSpecification {
            id: Level::L1b,
            max_macroblock_rate: 1_485,
            max_frame_size_mbs: 99,
            max_bit_rate: 128,
            max_dpb_mbs: 396,
        },
        LevelSpecification {
            id: Level::L1_1,
            max_macroblock_rate: 3_000,
            max_frame_size_mbs: 396,
            max_bit_rate: 192,
            max_dpb_mbs: 900,
        },
        LevelSpecification {
            id: Level::L1_2,
            max_macroblock_rate: 6_000,
            max_frame_size_mbs: 396,
            max_bit_rate: 384,
            max_dpb_mbs: 2_376,
        },
        LevelSpecification {
            id: Level::L1_3,
            max_macroblock_rate: 11_880,
            max_frame_size_mbs: 396,
            max_bit_rate: 768,
            max_dpb_mbs: 2_376,
        },
        LevelSpecification {
            id: Level::L2,
            max_macroblock_rate: 11_880,
            max_frame_size_mbs: 396,
            max_bit_rate: 2_000,
            max_dpb_mbs: 2_376,
        },
        LevelSpecification {
            id: Level::L2_1,
            max_macroblock_rate: 19_800,
            max_frame_size_mbs: 792,
            max_bit_rate: 4_000,
            max_dpb_mbs: 4_752,
        },
        LevelSpecification {
            id: Level::L2_2,
            max_macroblock_rate: 20_250,
            max_frame_size_mbs: 1_620,
            max_bit_rate: 4_000,
            max_dpb_mbs: 8_100,
        },
        LevelSpecification {
            id: Level::L3,
            max_macroblock_rate: 40_500,
            max_frame_size_mbs: 1_620,
            max_bit_rate: 10_000,
            max_dpb_mbs: 8_100,
        },
        LevelSpecification {
            id: Level::L3_1,
            max_macroblock_rate: 108_000,
            max_frame_size_mbs: 3_600,
            max_bit_rate: 14_000,
            max_dpb_mbs: 18_000,
        },
        LevelSpecification {
            id: Level::L3_2,
            max_macroblock_rate: 216_000,
            max_frame_size_mbs: 5_120,
            max_bit_rate: 20_000,
            max_dpb_mbs: 20_480,
        },
        LevelSpecification {
            id: Level::L4,
            max_macroblock_rate: 245_760,
            max_frame_size_mbs: 8_192,
            max_bit_rate: 20_000,
            max_dpb_mbs: 32_768,
        },
        LevelSpecification {
            id: Level::L4_1,
            max_macroblock_rate: 245_760,
            max_frame_size_mbs: 8_192,
            max_bit_rate: 50_000,
            max_dpb_mbs: 32_768,
        },
        LevelSpecification {
            id: Level::L4_2,
            max_macroblock_rate: 522_240,
            max_frame_size_mbs: 8_704,
            max_bit_rate: 50_000,
            max_dpb_mbs: 34_816,
        },
        LevelSpecification {
            id: Level::L5,
            max_macroblock_rate: 589_824,
            max_frame_size_mbs: 22_080,
            max_bit_rate: 135_000,
            max_dpb_mbs: 110_400,
        },
        LevelSpecification {
            id: Level::L5_1,
            max_macroblock_rate: 983_040,
            max_frame_size_mbs: 36_864,
            max_bit_rate: 240_000,
            max_dpb_mbs: 184_320,
        },
        LevelSpecification {
            id: Level::L5_2,
            max_macroblock_rate: 2_073_600,
            max_frame_size_mbs: 36_864,
            max_bit_rate: 240_000,
            max_dpb_mbs: 184_320,
        },
        LevelSpecification {
            id: Level::L6,
            max_macroblock_rate: 4_177_920,
            max_frame_size_mbs: 139_264,
            max_bit_rate: 240_000,
            max_dpb_mbs: 696_320,
        },
        LevelSpecification {
            id: Level::L6_1,
            max_macroblock_rate: 8_355_840,
            max_frame_size_mbs: 139_264,
            max_bit_rate: 480_000,
            max_dpb_mbs: 696_320,
        },
        LevelSpecification {
            id: Level::L6_2,
            max_macroblock_rate: 16_711_680,
            max_frame_size_mbs: 139_264,
            max_bit_rate: 800_000,
            max_dpb_mbs: 696_320,
        },
    ]
}

/// The record at a place of the table, counted from 0.
pub fn level_detail(index: usize) -> (r: LevelSpecification)
    requires
        index < LEVEL_COUNT,
    ensures
        r == level_details()[index as int],
{
    match index {
        0 => LevelSpecification {
            id: Level::L1,
            max_macroblock_rate: 1_485,
            max_frame_size_mbs: 99,
            max_bit_rate: 64,
            max_dpb_mbs: 396,
        },
        1 => LevelSpecification {
            id: Level::L1b,
            max_macroblock_rate: 1_485,
            max_frame_size_mbs: 99,
            max_bit_rate: 128,
            max_dpb_mbs: 396,
        },
        2 => LevelSpecification {
            id: Level::L1_1,
            max_macroblock_rate: 3_000,
            max_frame_size_mbs: 396,
            max_bit_rate: 192,
            max_dpb_mbs: 900,
        },
        3 => LevelSpecification {
            id: Level::L1_2,
            max_macroblock_rate: 6_000,
            max_frame_size_mbs: 396,
            max_bit_rate: 384,
            max_dpb_mbs: 2_376,
        },
        4 => LevelSpecification {
            id: Level::L1_3,
            max_macroblock_rate: 11_880,
            max_frame_size_mbs: 396,
            max_bit_rate: 768,
            max_dpb_mbs: 2_376,
        },
        5 => LevelSpecification {
            id: Level::L2,
            max_macroblock_rate: 11_880,
            max_frame_size_mbs: 396,
            max_bit_rate: 2_000,
            max_dpb_mbs: 2_376,
        },
        6 => LevelSpecification {
            id: Level::L2_1,
            max_macroblock_rate: 19_800,
            max_frame_size_mbs: 792,
            max_bit_rate: 4_000,
            max_dpb_mbs: 4_752,
        },
        7 => LevelSpecification {
            id: Level::L2_2,
            max_macroblock_rate: 20_250,
            max_frame_size_mbs: 1_620,
            max_bit_rate: 4_000,
            max_dpb_mbs: 8_100,
        },
        8 => LevelSpecification {
            id: Level::L3,
            max_macroblock_rate: 40_500,
            max_frame_size_mbs: 1_620,
            max_bit_rate: 10_000,
            max_dpb_mbs: 8_100,
        },
        9 => LevelSpecification {
            id: Level::L3_1,
            max_macroblock_rate: 108_000,
            max_frame_size_mbs: 3_600,
            max_bit_rate: 14_000,
            max_dpb_mbs: 18_000,
        },
        10 => LevelSpecification {
            id: Level::L3_2,
            max_macroblock_rate: 216_000,
            max_frame_size_mbs: 5_120,
            max_bit_rate: 20_000,
            max_dpb_mbs: 20_480,
        },
        11 => LevelSpecification {
            id: Level::L4,
            max_macroblock_rate: 245_760,
            max_frame_size_mbs: 8_192,
            max_bit_rate: 20_000,
            max_dpb_mbs: 32_768,
        },
        12 => LevelSpecification {
            id: Level::L4_1,
            max_macroblock_rate: 245_760,
            max_frame_size_mbs: 8_192,
            max_bit_rate: 50_000,
            max_dpb_mbs: 32_768,
        },
        13 => LevelSpecification {
            id: Level::L4_2,
            max_macroblock_rate: 522_240,
            max_frame_size_mbs: 8_704,
            max_bit_rate: 50_000,
            max_dpb_mbs: 34_816,
        },
        14 => LevelSpecification {
            id: Level::L5,
            max_macroblock_rate: 589_824,
            max_frame_size_mbs: 22_080,
            max_bit_rate: 135_000,
            max_dpb_mbs: 110_400,
        },
        15 => LevelSpecification {
            id: Level::L5_1,
            max_macroblock_rate: 983_040,
            max_frame_size_mbs: 36_864,
            max_bit_rate: 240_000,
            max_dpb_mbs: 184_320,
        },
        16 => LevelSpecification {
            id: Level::L5_2,
            max_macroblock_rate: 2_073_600,
            max_frame_size_mbs: 36_864,
            max_bit_rate: 240_000,
            max_dpb_mbs: 184_320,
        },
        17 => LevelSpecification {
            id: Level::L6,
            max_macroblock_rate: 4_177_920,
            max_frame_size_mbs: 139_264,
            max_bit_rate: 240_000,
            max_dpb_mbs: 696_320,
        },
        18 => LevelSpecification {
            id: Level::L6_1,
            max_macroblock_rate: 8_355_840,
            max_frame_size_mbs: 139_264,
            max_bit_rate: 480_000,
            max_dpb_mbs: 696_320,
        },
        _ => LevelSpecification {
            id: Level::L6_2,
            max_macroblock_rate: 16_711_680,
            max_frame_size_mbs: 139_264,
            max_bit_rate: 800_000,
            max_dpb_mbs: 696_320,
        },
    }
}

/// No limit of the record `after` is below that of the record `before`.
pub open spec fn no_limit_below(before: LevelSpecification, after: LevelSpecification) -> bool {
    &&& before.max_macroblock_rate <= after.max_macroblock_rate
    &&& before.max_frame_size_mbs <= after.max_frame_size_mbs
    &&& before.max_bit_rate <= after.max_bit_rate
    &&& before.max_dpb_mbs <= after.max_dpb_mbs
}

/// The table holds one record for each level, at the place of its rank, and
/// no limit of a record is below that of a record before it.
pub proof fn table_is_ordered(i: int, j: int)
    requires
        0 <= i <= j < LEVEL_COUNT,
    ensures
        level_details().len() == LEVEL_COUNT,
        level_details()[i].id.spec_rank() == i,
        no_limit_below(level_details()[i], level_details()[j]),
        i < j ==> level_details()[i].id.spec_rank() < level_details()[j].id.spec_rank(),
{
    let t = level_details();
    assert forall|k: int| 0 <= k < LEVEL_COUNT - 1 implies {
        &&& (#[trigger] t[k]).id.spec_rank() == k
        &&& no_limit_below(t[k], t[k + 1])
    } by {}
    assert(t[LEVEL_COUNT - 1].id.spec_rank() == LEVEL_COUNT - 1);
    steps_add_up(i, j);
}

proof fn steps_add_up(i: int, j: int)
    requires
        0 <= i <= j < LEVEL_COUNT,
        forall|k: int|
            0 <= k < LEVEL_COUNT - 1 ==> no_limit_below(
                #[trigger] level_details()[k],
                level_details()[k + 1],
            ),
    ensures
        no_limit_below(level_details()[i], level_details()[j]),
    decreases j - i,
{
    if i < j {
        steps_add_up(i, j - 1);
        assert(no_limit_below(level_details()[j - 1], level_details()[j - 1 + 1]));
    }
}

/// The whole table, in ascending capability.
pub fn level_table() -> (r: Vec<LevelSpecification>)
    ensures
        r@ == level_details(),
{
    let mut table: Vec<LevelSpecification> = Vec::new();
    let mut i: usize = 0;
    while i < LEVEL_COUNT
        invariant
            i <= LEVEL_COUNT,
            table@.len() == i,
            forall|k: int| 0 <= k < i ==> table@[k] == level_details()[k],
        decreases LEVEL_COUNT - i,
    {
        table.push(level_detail(i));
        i += 1;
    }
    proof {
        table_is_ordered(0, 0);
        assert(table@ =~= level_details());
    }
    table
}

/// The record that `get` gives for a level: the record of the table with that
/// level, and the last record where the table has none.
pub open spec fn spec_get(level: Level) -> LevelSpecification {
    if exists|i: int| 0 <= i < LEVEL_COUNT && (#[trigger] level_details()[i]).id == level {
        let i = choose|i: int| 0 <= i < LEVEL_COUNT && (#[trigger] level_details()[i]).id == level;
        level_details()[i]
    } else {
        level_details()[LEVEL_COUNT - 1]
    }
}

/// Every level has its record: `get` gives the record at the rank of the
/// level, and the record names the level.
pub proof fn get_gives_the_level(level: Level)
    ensures
        spec_get(level) == level_details()[level.spec_rank() as int],
        spec_get(level).id == level,
{
    let r = level.spec_rank() as int;
    table_is_ordered(r, r);
    assert(level_details()[r].id.spec_rank() == level.spec_rank());
    assert(level_details()[r].id == level);
    let i = choose|i: int| 0 <= i < LEVEL_COUNT && (#[trigger] level_details()[i]).id == level;
    table_is_ordered(i, i);
}

/// The record of a level, found by a scan of the table. A level that the
/// table does not hold gets the last record.
pub fn get(level: Level) -> (r: LevelSpecification)
    ensures
        r == spec_get(level),
        r.id == level,
{
    proof {
        get_gives_the_level(level);
    }
    let mut i: usize = 0;
    while i < LEVEL_COUNT
        invariant
            i <= LEVEL_COUNT,
            forall|k: int| 0 <= k < i ==> (#[trigger] level_details()[k]).id != level,
            spec_get(level) == level_details()[level.spec_rank() as int],
            spec_get(level).id == level,
        decreases LEVEL_COUNT - i,
    {
        let l = level_detail(i);
        if l.id() == level {
            proof {
                table_is_ordered(i as int, i as int);
            }
            return l;
        }
        i += 1;
    }
    level_detail(LEVEL_COUNT - 1)
}

/// A workload and the bounds of a choice of level. `framerate` counts whole
/// pictures per second: a fractional rate is rounded up before it gets here.
#[derive(Debug, Clone, Copy, PartialEq, Eq, Structural)]
pub struct LevelSelector {
    pub width: u32,
    pub height: u32,
    pub framerate: u64,
    pub profile: Profile,
    pub min_level: Option<Level>,
    pub max_level: Option<Level>,
    pub max_bitrate: Option<u32>,
}

impl Default for LevelSelector {
    fn default() -> (r: Self)
        ensures
            r == Self::spec_new(),
    {
        Self::new()
    }
}

impl LevelSelector {
    /// The selector that `new` gives: 1920x1080 at 30 pictures per second,
    /// Main profile, no bound on level or bitrate.
    pub open spec fn spec_new() -> LevelSelector {
        LevelSelector {
            width: 1920,
            height: 1080,
            framerate: 30,
            profile: Profile::Main,
            min_level: None,
            max_level: None,
            max_bitrate: None,
        }
    }

    /// Macroblocks of one picture of the workload.
    pub open spec fn frame_demand(self) -> nat {
        spec_frame_mbs(self.width, self.height)
    }

    /// Macroblocks per second that the workload asks for.
    pub open spec fn demand(self) -> nat {
        self.frame_demand() * self.framerate as nat
    }

    /// The level has the macroblock rate and the frame size that the
    /// workload asks for.
    pub open spec fn has_capacity(self, level: LevelSpecification) -> bool {
        self.demand() <= level.max_macroblock_rate && self.frame_demand()
            <= level.max_frame_size_mbs
    }

    /// Where a bitrate is asked for, the level has at least that for the
    /// profile.
    pub open spec fn has_bitrate(self, level: LevelSpecification) -> bool {
        match self.max_bitrate {
            Some(wanted) => level.spec_max_bit_rate(self.profile) >= wanted,
            None => true,
        }
    }

    /// The level is not below the lower bound, where there is one.
    pub open spec fn reaches_floor(self, level: LevelSpecification) -> bool {
        match self.min_level {
            Some(min) => level.id.spec_rank() >= min.spec_rank(),
            None => true,
        }
    }

    /// The level is not above the upper bound, where there is one.
    pub open spec fn within_ceiling(self, level: LevelSpecification) -> bool {
        match self.max_level {
            Some(max) => level.id.spec_rank() <= max.spec_rank(),
            None => true,
        }
    }

    /// The scan stops at this level: it has the capacity and the bitrate and
    /// reaches the lower bound.
    pub open spec fn qualifies(self, level: LevelSpecification) -> bool {
        self.has_capacity(level) && self.has_bitrate(level) && self.reaches_floor(level)
    }

    /// Place of the first record from `start` on that qualifies, and
    /// `LEVEL_COUNT` where none does.
    pub open spec fn first_qualifying(self, start: int) -> int
        decreases LEVEL_COUNT - start,
    {
        if start < 0 || start >= LEVEL_COUNT {
            LEVEL_COUNT as int
        } else if self.qualifies(level_details()[start]) {
            start
        } else {
            self.first_qualifying(start + 1)
        }
    }

    /// The record that the scan settles on: the first that qualifies, and
    /// the last record of the table where none does.
    pub open spec fn chosen(self) -> LevelSpecification {
        let i = self.first_qualifying(0);
        if i < LEVEL_COUNT {
            level_details()[i]
        } else {
            level_details()[LEVEL_COUNT - 1]
        }
    }

    /// The result of `select`: the record that the scan settles on, unless
    /// it is above the upper bound.
    pub open spec fn spec_select(self) -> Option<LevelSpecification> {
        if self.within_ceiling(self.chosen()) {
            Some(self.chosen())
        } else {
            None
        }
    }

    /// 1920x1080 at 30 pictures per second, no bound on level or bitrate.
    pub fn new() -> (r: Self)
        ensures
            r == Self::spec_new(),
    {
        Self {
            width: 1920,
            height: 1080,
            framerate: 30,
            profile: Profile::Main,
            min_level: None,
            max_level: None,
            max_bitrate: None,
        }
    }

    pub fn width(self, width: u32) -> (r: Self)
        ensures
            r == (LevelSelector { width, ..self }),
    {
        LevelSelector { width, ..self }
    }

    pub fn height(self, height: u32) -> (r: Self)
        ensures
            r == (LevelSelector { height, ..self }),
    {
        LevelSelector { height, ..self }
    }

    /// Sets the pictures per second, as a whole number.
    pub fn framerate(self, framerate: u64) -> (r: Self)
        ensures
            r == (LevelSelector { framerate, ..self }),
    {
        LevelSelector { framerate, ..self }
    }

    /// Sets both bounds on the level: `min` is a floor for the scan, `max` a
    /// ceiling for its result.
    pub fn clamp(self, min: Level, max: Level) -> (r: Self)
        ensures
            r == (LevelSelector { min_level: Some(min), max_level: Some(max), ..self }),
    {
        LevelSelector { min_level: Some(min), max_level: Some(max), ..self }
    }

    /// Asks for a level that allows at least this bitrate.
    pub fn max_bitrate(self, max_bitrate: u32) -> (r: Self)
        ensures
            r == (LevelSelector { max_bitrate: Some(max_bitrate), ..self }),
    {
        LevelSelector { max_bitrate: Some(max_bitrate), ..self }
    }

    pub fn profile(self, profile: Profile) -> (r: Self)
        ensures
            r == (LevelSelector { profile, ..self }),
    {
        LevelSelector { profile, ..self }
    }

    /// Whether `select` stops at a record: the executable form of
    /// `qualifies`, on the demand computed once for the scan.
    fn stops_at(&self, frame_mbs: u64, mb_rate: u128, level: &LevelSpecification) -> (r: bool)
        requires
            frame_mbs == self.frame_demand(),
            mb_rate == self.demand(),
        ensures
            r == self.qualifies(*level),
    {
        if mb_rate > level.max_macroblock_rate as u128 || frame_mbs
            > level.max_frame_size_mbs as u64 {
            return false;
        }
        // Check if level fits within the max specified bitrate
        let fits = match self.max_bitrate {
            Some(bitrate_constraint) => level.max_bit_rate(self.profile)
                >= bitrate_constraint as u64,
            None => true,
        };
        if !fits {
            return false;
        }
        // Clamp to min level
        match self.min_level {
            Some(min) => level.id().rank() >= min.rank(),
            None => true,
        }
    }

    /// The record, unless it is above the upper bound.
    fn unless_above_ceiling(&self, chosen: LevelSpecification) -> (r: Option<LevelSpecification>)
        ensures
            r == if self.within_ceiling(chosen) {
                Some(chosen)
            } else {
                None
            },
    {
        // Check if exceeds max level
        match self.max_level {
            Some(max) => if chosen.id().rank() > max.rank() {
                None
            } else {
                Some(chosen)
            },
            None => Some(chosen),
        }
    }

    /// The lowest level of the table that accommodates the workload. Where no
    /// record does, the last record of the table stands in. `None` where the
    /// record found is above the upper bound.
    pub fn select(self) -> (r: Option<LevelSpecification>)
        ensures
            r == self.spec_select(),
    {
        let frame_mbs: u64 = frame_mbs(self.width, self.height);
        assert(frame_mbs * self.framerate as nat <= 0x1000_0000 * 0x1000_0000
            * 0xffff_ffff_ffff_ffff) by (nonlinear_arith)
            requires
                frame_mbs <= 0x1000_0000 * 0x1000_0000,
                self.framerate <= 0xffff_ffff_ffff_ffff,
        ;
        let mb_rate: u128 = frame_mbs as u128 * self.framerate as u128;
        let mut i: usize = 0;
        while i < LEVEL_COUNT
            invariant
                i <= LEVEL_COUNT,
                frame_mbs == self.frame_demand(),
                mb_rate == self.demand(),
                self.first_qualifying(0) == self.first_qualifying(i as int),
            decreases LEVEL_COUNT - i,
        {
            let level = level_detail(i);
            if self.stops_at(frame_mbs, mb_rate, &level) {
                return self.unless_above_ceiling(level);
            }
            i += 1;
        }
        self.unless_above_ceiling(level_detail(LEVEL_COUNT - 1))
    }
}

/// What `first_qualifying` finds: a place from `start` on; the record there
/// qualifies; no record between `start` and it does.
pub proof fn first_qualifying_is_first(s: LevelSelector, start: int)
    requires
        0 <= start <= LEVEL_COUNT,
    ensures
        start <= s.first_qualifying(start) <= LEVEL_COUNT,
        s.first_qualifying(start) < LEVEL_COUNT ==> s.qualifies(
            level_details()[s.first_qualifying(start)],
        ),
        forall|k: int|
            start <= k < s.first_qualifying(start) ==> !s.qualifies(#[trigger] level_details()[k]),
    decreases LEVEL_COUNT - start,
{
    if start < LEVEL_COUNT && !s.qualifies(level_details()[start]) {
        first_qualifying_is_first(s, start + 1);
    }
}

/// `select` finds the least sufficient level. A record that it returns
/// either qualifies, and then no record before it does, or it is the last
/// record of the table, and then no record qualifies at all.
pub proof fn select_is_minimal(s: LevelSelector, found: LevelSpecification)
    requires
        s.spec_select() == Some(found),
    ensures
        found.id.spec_rank() < LEVEL_COUNT,
        found == level_details()[found.id.spec_rank() as int],
        forall|k: int|
            0 <= k < found.id.spec_rank() ==> !s.qualifies(#[trigger] level_details()[k]),
        s.qualifies(found) || (found == level_details()[LEVEL_COUNT - 1] && forall|k: int|
            0 <= k < LEVEL_COUNT ==> !s.qualifies(#[trigger] level_details()[k])),
{
    first_qualifying_is_first(s, 0);
    let i = s.first_qualifying(0);
    if i < LEVEL_COUNT {
        table_is_ordered(i, i);
    } else {
        table_is_ordered(LEVEL_COUNT - 1, LEVEL_COUNT - 1);
    }
}

/// Capacity and bitrate do not fall along the table: what a record has for a
/// workload, every later record has.
pub proof fn capacity_and_bitrate_are_kept(s: LevelSelector, i: int, j: int)
    requires
        0 <= i <= j < LEVEL_COUNT,
    ensures
        s.has_capacity(level_details()[i]) ==> s.has_capacity(level_details()[j]),
        s.has_bitrate(level_details()[i]) ==> s.has_bitrate(level_details()[j]),
        s.reaches_floor(level_details()[i]) ==> s.reaches_floor(level_details()[j]),
{
    table_is_ordered(i, j);
    table_is_ordered(j, j);
    crate::common::scale_monotonic(
        s.profile.spec_bitrate_multiplier(),
        level_details()[i].max_bit_rate,
        level_details()[j].max_bit_rate,
    );
}

/// An upper bound below the level that the workload needs gives no level:
/// where the selector without its bounds settles on a level above `max`, the
/// selector with the upper bound `max`, whatever its lower bound, returns
/// `None`.
pub proof fn ceiling_below_need_gives_none(s: LevelSelector, max: Level)
    requires
        s.max_level == Some(max),
        (LevelSelector { min_level: None, max_level: None, ..s }).chosen().id.spec_rank()
            > max.spec_rank(),
    ensures
        s.spec_select().is_none(),
{
    let free = LevelSelector { min_level: None, max_level: None, ..s };
    first_qualifying_is_first(s, 0);
    first_qualifying_is_first(free, 0);
    let i = s.first_qualifying(0);
    let j = free.first_qualifying(0);
    if i < LEVEL_COUNT {
        assert(free.qualifies(level_details()[i]));
        assert(j <= i);
        table_is_ordered(j, i);
    } else {
        table_is_ordered(LEVEL_COUNT - 1, LEVEL_COUNT - 1);
        if j < LEVEL_COUNT {
            table_is_ordered(j, LEVEL_COUNT - 1);
        }
    }
}

/// With a lower bound that is not above the upper bound, `select` returns
/// `None` in no other case: where the selector without its bounds settles on
/// a level that is not above `max`, the selector with its bounds returns a
/// level.
pub proof fn ceiling_at_need_gives_some(s: LevelSelector, max: Level)
    requires
        s.max_level == Some(max),
        match s.min_level {
            Some(min) => min.spec_rank() <= max.spec_rank(),
            None => true,
        },
        (LevelSelector { min_level: None, max_level: None, ..s }).chosen().id.spec_rank()
            <= max.spec_rank(),
    ensures
        s.spec_select().is_some(),
{
    let free = LevelSelector { min_level: None, max_level: None, ..s };
    first_qualifying_is_first(s, 0);
    first_qualifying_is_first(free, 0);
    let i = s.first_qualifying(0);
    let j = free.first_qualifying(0);
    table_is_ordered(LEVEL_COUNT - 1, LEVEL_COUNT - 1);
    if i < LEVEL_COUNT {
        table_is_ordered(i, i);
        assert(free.qualifies(level_details()[i]));
        table_is_ordered(j, j);
        if i > j {
            // the floor alone kept the scan from stopping before `i`
            capacity_and_bitrate_are_kept(free, j, i - 1);
            assert(free.qualifies(level_details()[i - 1]));
            assert(!s.qualifies(level_details()[i - 1]));
            table_is_ordered(i - 1, i - 1);
        }
    } else if j < LEVEL_COUNT {
        // the floor is above every record that qualifies without it
        capacity_and_bitrate_are_kept(free, j, LEVEL_COUNT - 1);
        assert(free.qualifies(level_details()[LEVEL_COUNT - 1]));
        assert(!s.qualifies(level_details()[LEVEL_COUNT - 1]));
    }
}

/// A lower bound is a floor: a level that `select` returns under the lower
/// bound `min` is never below `min`.
pub proof fn floor_is_kept(s: LevelSelector, min: Level)
    requires
        s.min_level == Some(min),
        s.spec_select().is_some(),
    ensures
        s.spec_select().unwrap().id.spec_rank() >= min.spec_rank(),
{
    first_qualifying_is_first(s, 0);
    table_is_ordered(LEVEL_COUNT - 1, LEVEL_COUNT - 1);
}

/// A lower bound below the level that the workload needs changes nothing:
/// where the selector without a lower bound settles on a level that is not
/// below `min`, the selector with the lower bound `min` settles on the same.
pub proof fn floor_below_need_changes_nothing(s: LevelSelector, min: Level)
    requires
        s.min_level == Some(min),
        (LevelSelector { min_level: None, ..s }).chosen().id.spec_rank() >= min.spec_rank(),
    ensures
        s.spec_select() == (LevelSelector { min_level: None, ..s }).spec_select(),
{
    let free = LevelSelector { min_level: None, ..s };
    first_qualifying_is_first(s, 0);
    first_qualifying_is_first(free, 0);
    let i = s.first_qualifying(0);
    let j = free.first_qualifying(0);
    if i < LEVEL_COUNT {
        assert(free.qualifies(level_details()[i]));
    }
    if j < LEVEL_COUNT {
        table_is_ordered(j, j);
        assert(s.qualifies(level_details()[j]));
    }
}

/// A workload beyond every level falls back to the top of the table: where
/// there is no upper bound, and the workload asks for more than the last
/// record has, in capacity or in bitrate, `select` returns the last record.
pub proof fn beyond_every_level_gives_top(s: LevelSelector)
    requires
        s.max_level.is_none(),
        !s.has_capacity(level_details()[LEVEL_COUNT - 1]) || !s.has_bitrate(
            level_details()[LEVEL_COUNT - 1],
        ),
    ensures
        s.spec_select() == Some(level_details()[LEVEL_COUNT - 1]),
{
    first_qualifying_is_first(s, 0);
    let i = s.first_qualifying(0);
    if i < LEVEL_COUNT {
        capacity_and_bitrate_are_kept(s, i, LEVEL_COUNT - 1);
        assert(s.qualifies(level_details()[i]));
    }
}

/// More pictures per second never give a lower level: of two selectors that
/// differ in the frame rate alone, the one with the higher rate settles on a
/// level of at least the rank of the other.
pub proof fn select_is_monotonic_in_framerate(s: LevelSelector, faster: u64)
    requires
        s.framerate <= faster,
    ensures
        s.chosen().id.spec_rank() <= (LevelSelector {
            framerate: faster,
            ..s
        }).chosen().id.spec_rank(),
{
    let f = LevelSelector { framerate: faster, ..s };
    first_qualifying_is_first(s, 0);
    first_qualifying_is_first(f, 0);
    let i = s.first_qualifying(0);
    let j = f.first_qualifying(0);
    assert(s.demand() <= f.demand()) by (nonlinear_arith)
        requires
            s.demand() == s.frame_demand() * s.framerate as nat,
            f.demand() == s.frame_demand() * faster as nat,
            s.framerate <= faster,
    ;
    table_is_ordered(LEVEL_COUNT - 1, LEVEL_COUNT - 1);
    if j < LEVEL_COUNT {
        assert(s.qualifies(level_details()[j]));
        assert(i <= j);
        table_is_ordered(i, j);
    } else if i < LEVEL_COUNT {
        table_is_ordered(i, LEVEL_COUNT - 1);
    }
}

} // verus!
