//! HEVC (ITU-T H.265) levels, tiers and profiles, after Annex A of the
//! recommendation: the table of levels, the bitrate that a profile and tier
//! allow at a level, and the choice of the lowest level for a workload.
use crate::common::BitrateMultiplier;
use crate::common::ProfileConstraint;
use vstd::prelude::*;
use yuv::color::ChromaSampling;
use yuv::color::Depth;

verus! {

#[derive(Debug, Clone, Copy, PartialEq, Eq, PartialOrd, Ord, Structural)]
pub enum Tier {
    /// The Main tier was designed for most applications
    Main,
    /// High tier was designed for very demanding applications
    High,
}

#[derive(Debug, Clone, Copy, PartialEq, Eq, PartialOrd, Ord, Structural)]
pub enum Profile {
    Main,
    Main10,
    Main12,
    Main422_10,
    Main444,
    Main444_16Intra,
    Main444_16IntraHighThroughput,
}

/// The levels in ascending capability. The order of the variants is the order
/// of the table; the value that a bitstream carries for a level is another
/// number, see `usize` and `from`.
#[derive(Debug, Clone, Copy, PartialEq, Eq, PartialOrd, Ord, Structural)]
pub enum Level {
    L1,
    L2,
    L2_1,
    L3,
    L3_1,
    L4,
    L4_1,
    L5,
    L5_1,
    L5_2,
    L6,
    L6_1,
    L6_2,
    L6_3,
    L7,
    L7_1,
    L7_2,
    /// Everything goes when you hit 8.5
    L8_5,
}

/// Number of records in the table of levels.
pub const LEVEL_COUNT: usize = 18;

/// The factor by which the picture format of a profile raises the bitrate of
/// the 8-bit 4:2:0 figures of the table.
pub open spec fn spec_pixel_multiplier(chroma: ChromaSampling, depth: Depth) -> BitrateMultiplier {
    let quarters: u32 = match chroma {
        ChromaSampling::Cs420 | ChromaSampling::Monochrome => match depth {
            Depth::Depth8 => 4,
            Depth::Depth10 => 4,
            Depth::Depth12 => 6,
            Depth::Depth16 => 12,
        },
        ChromaSampling::Cs422 => match depth {
            Depth::Depth8 => 8,
            Depth::Depth10 => 8,
            Depth::Depth12 => 12,
            Depth::Depth16 => 24,
        },
        ChromaSampling::Cs444 => match depth {
            Depth::Depth8 => 12,
            Depth::Depth10 => 12,
            Depth::Depth12 => 12,
            Depth::Depth16 => 32,
        },
    };
    BitrateMultiplier { quarters }
}

pub fn pixel_multiplier(chroma: ChromaSampling, depth: Depth) -> (r: BitrateMultiplier)
    ensures
        r == spec_pixel_multiplier(chroma, depth),
{
    let quarters: u32 = match chroma {
        ChromaSampling::Cs420 | ChromaSampling::Monochrome => match depth {
            Depth::Depth8 => 4,
            Depth::Depth10 => 4,
            Depth::Depth12 => 6,
            Depth::Depth16 => 12,
        },
        ChromaSampling::Cs422 => match depth {
            Depth::Depth8 => 8,
            Depth::Depth10 => 8,
            Depth::Depth12 => 12,
            Depth::Depth16 => 24,
        },
        ChromaSampling::Cs444 => match depth {
            Depth::Depth8 => 12,
            Depth::Depth10 => 12,
            Depth::Depth12 => 12,
            Depth::Depth16 => 32,
        },
    };
    BitrateMultiplier { quarters }
}

impl Profile {
    /// What the profile allows: its greatest bit depth and its chroma
    /// formats, given by a ceiling format. Every profile allows monochrome.
    pub open spec fn spec_constraint(self) -> ProfileConstraint {
        match self {
            Profile::Main => ProfileConstraint::spec_new(
                Depth::Depth8,
                ChromaSampling::Cs420,
                true,
            ),
            Profile::Main10 => ProfileConstraint::spec_new(
                Depth::Depth10,
                ChromaSampling::Cs420,
                true,
            ),
            Profile::Main12 => ProfileConstraint::spec_new(
                Depth::Depth12,
                ChromaSampling::Cs420,
                true,
            ),
            Profile::Main422_10 => ProfileConstraint::spec_new(
                Depth::Depth10,
                ChromaSampling::Cs422,
                true,
            ),
            Profile::Main444 => ProfileConstraint::spec_new(
                Depth::Depth8,
                ChromaSampling::Cs444,
                true,
            ),
            Profile::Main444_16Intra => ProfileConstraint::spec_new(
                Depth::Depth16,
                ChromaSampling::Cs444,
                true,
            ),
            Profile::Main444_16IntraHighThroughput => ProfileConstraint::spec_new(
                Depth::Depth16,
                ChromaSampling::Cs444,
                true,
            ),
        }
    }

    /// The factor for throughput: 12 for the high throughput intra profile,
    /// 1 for the others.
    pub open spec fn spec_throughput_factor(self) -> u32 {
        match self {
            Profile::Main444_16IntraHighThroughput => 12,
            _ => 1,
        }
    }

    /// The factor of the profile: the factor of its picture format times its
    /// factor for throughput.
    pub open spec fn spec_bitrate_multiplier(self) -> BitrateMultiplier {
        let c = self.spec_constraint();
        let pixel = spec_pixel_multiplier(c.spec_max_chroma_format(), c.max_bit_depth);
        match self {
            Profile::Main444_16IntraHighThroughput => BitrateMultiplier {
                quarters: (12 * pixel.quarters) as u32,
            },
            _ => pixel,
        }
    }

    pub fn constraint(&self) -> (r: ProfileConstraint)
        ensures
            r == self.spec_constraint(),
    {
        match self {
            Profile::Main => ProfileConstraint::new(Depth::Depth8, ChromaSampling::Cs420, true),
            Profile::Main10 => ProfileConstraint::new(Depth::Depth10, ChromaSampling::Cs420, true),
            Profile::Main12 => ProfileConstraint::new(Depth::Depth12, ChromaSampling::Cs420, true),
            Profile::Main422_10 => ProfileConstraint::new(
                Depth::Depth10,
                ChromaSampling::Cs422,
                true,
            ),
            Profile::Main444 => ProfileConstraint::new(Depth::Depth8, ChromaSampling::Cs444, true),
            Profile::Main444_16Intra => ProfileConstraint::new(
                Depth::Depth16,
                ChromaSampling::Cs444,
                true,
            ),
            Profile::Main444_16IntraHighThroughput => ProfileConstraint::new(
                Depth::Depth16,
                ChromaSampling::Cs444,
                true,
            ),
        }
    }

    pub fn bitrate_multiplier(&self) -> (r: BitrateMultiplier)
        ensures
            r == self.spec_bitrate_multiplier(),
    {
        let spec = self.constraint();
        let pixel = pixel_multiplier(spec.max_chroma_format(), spec.max_bit_depth);
        match self {
            Profile::Main444_16IntraHighThroughput => pixel.times(12),
            _ => pixel,
        }
    }
}

/// The factor of a profile is the product of the factor of its picture format
/// and its factor for throughput.
pub proof fn multiplier_is_a_product(profile: Profile)
    ensures
        profile.spec_bitrate_multiplier().quarters == spec_pixel_multiplier(
            profile.spec_constraint().spec_max_chroma_format(),
            profile.spec_constraint().max_bit_depth,
        ).quarters * profile.spec_throughput_factor(),
{
}

impl From<&Profile> for ProfileConstraint {
    fn from(profile: &Profile) -> (r: Self) {
        profile.constraint()
    }
}

impl vstd::std_specs::convert::FromSpecImpl<&Profile> for ProfileConstraint {
    open spec fn obeys_from_spec() -> bool {
        true
    }

    open spec fn from_spec(profile: &Profile) -> Self {
        profile.spec_constraint()
    }
}

impl Level {
    /// Place of the level in the order of capability, from 0.
    pub open spec fn spec_rank(self) -> nat {
        match self {
            Level::L1 => 0,
            Level::L2 => 1,
            Level::L2_1 => 2,
            Level::L3 => 3,
            Level::L3_1 => 4,
            Level::L4 => 5,
            Level::L4_1 => 6,
            Level::L5 => 7,
            Level::L5_1 => 8,
            Level::L5_2 => 9,
            Level::L6 => 10,
            Level::L6_1 => 11,
            Level::L6_2 => 12,
            Level::L6_3 => 13,
            Level::L7 => 14,
            Level::L7_1 => 15,
            Level::L7_2 => 16,
            Level::L8_5 => 17,
        }
    }

    /// The value that a bitstream carries for the level: 30 times the level
    /// number, and 255 for level 8.5.
    pub open spec fn spec_usize(self) -> usize {
        match self {
            Level::L1 => 30,
            Level::L2 => 60,
            Level::L2_1 => 63,
            Level::L3 => 90,
            Level::L3_1 => 93,
            Level::L4 => 120,
            Level::L4_1 => 123,
            Level::L5 => 150,
            Level::L5_1 => 153,
            Level::L5_2 => 156,
            Level::L6 => 180,
            Level::L6_1 => 183,
            Level::L6_2 => 186,
            Level::L6_3 => 189,
            Level::L7 => 210,
            Level::L7_1 => 213,
            Level::L7_2 => 216,
            Level::L8_5 => 255,
        }
    }

    /// The level that a bitstream value stands for: the level with that
    /// value, and the top level for any other value.
    pub open spec fn spec_from(value: usize) -> Level {
        if value == 30 {
            Level::L1
        } else if value == 60 {
            Level::L2
        } else if value == 63 {
            Level::L2_1
        } else if value == 90 {
            Level::L3
        } else if value == 93 {
            Level::L3_1
        } else if value == 120 {
            Level::L4
        } else if value == 123 {
            Level::L4_1
        } else if value == 150 {
            Level::L5
        } else if value == 153 {
            Level::L5_1
        } else if value == 156 {
            Level::L5_2
        } else if value == 180 {
            Level::L6
        } else if value == 183 {
            Level::L6_1
        } else if value == 186 {
            Level::L6_2
        } else if value == 189 {
            Level::L6_3
        } else if value == 210 {
            Level::L7
        } else if value == 213 {
            Level::L7_1
        } else if value == 216 {
            Level::L7_2
        } else {
            Level::L8_5
        }
    }

    /// The name of the level in print.
    pub open spec fn spec_name(self) -> Seq<char> {
        match self {
            Level::L1 => "1"@,
            Level::L2 => "2"@,
            Level::L2_1 => "2.1"@,
            Level::L3 => "3"@,
            Level::L3_1 => "3.1"@,
            Level::L4 => "4"@,
            Level::L4_1 => "4.1"@,
            Level::L5 => "5"@,
            Level::L5_1 => "5.1"@,
            Level::L5_2 => "5.2"@,
            Level::L6 => "6"@,
            Level::L6_1 => "6.1"@,
            Level::L6_2 => "6.2"@,
            Level::L6_3 => "6.3"@,
            Level::L7 => "7"@,
            Level::L7_1 => "7.1"@,
            Level::L7_2 => "7.2"@,
            Level::L8_5 => "8.1"@,
        }
    }

    /// Place of the level in the order of capability, from 0.
    pub fn rank(&self) -> (r: usize)
        ensures
            r == self.spec_rank(),
            r < 18,
    {
        match self {
            Level::L1 => 0,
            Level::L2 => 1,
            Level::L2_1 => 2,
            Level::L3 => 3,
            Level::L3_1 => 4,
            Level::L4 => 5,
            Level::L4_1 => 6,
            Level::L5 => 7,
            Level::L5_1 => 8,
            Level::L5_2 => 9,
            Level::L6 => 10,
            Level::L6_1 => 11,
            Level::L6_2 => 12,
            Level::L6_3 => 13,
            Level::L7 => 14,
            Level::L7_1 => 15,
            Level::L7_2 => 16,
            Level::L8_5 => 17,
        }
    }

    /// The value that a bitstream carries for the level.
    pub fn usize(&self) -> (r: usize)
        ensures
            r == self.spec_usize(),
    {
        match self {
            Level::L1 => 30,
            Level::L2 => 60,
            Level::L2_1 => 63,
            Level::L3 => 90,
            Level::L3_1 => 93,
            Level::L4 => 120,
            Level::L4_1 => 123,
            Level::L5 => 150,
            Level::L5_1 => 153,
            Level::L5_2 => 156,
            Level::L6 => 180,
            Level::L6_1 => 183,
            Level::L6_2 => 186,
            Level::L6_3 => 189,
            Level::L7 => 210,
            Level::L7_1 => 213,
            Level::L7_2 => 216,
            Level::L8_5 => 255,
        }
    }

    /// The name of the level in print.
    pub fn name(&self) -> (r: &'static str)
        ensures
            r@ == self.spec_name(),
    {
        match self {
            Level::L1 => "1",
            Level::L2 => "2",
            Level::L2_1 => "2.1",
            Level::L3 => "3",
            Level::L3_1 => "3.1",
            Level::L4 => "4",
            Level::L4_1 => "4.1",
            Level::L5 => "5",
            Level::L5_1 => "5.1",
            Level::L5_2 => "5.2",
            Level::L6 => "6",
            Level::L6_1 => "6.1",
            Level::L6_2 => "6.2",
            Level::L6_3 => "6.3",
            Level::L7 => "7",
            Level::L7_1 => "7.1",
            Level::L7_2 => "7.2",
            Level::L8_5 => "8.1",
        }
    }
}

/// Decodes the value that a bitstream carries for a level. A value that
/// stands for no level gives the top level.
impl From<usize> for Level {
    fn from(value: usize) -> (r: Self) {
        match value {
            30 => Level::L1,
            60 => Level::L2,
            63 => Level::L2_1,
            90 => Level::L3,
            93 => Level::L3_1,
            120 => Level::L4,
            123 => Level::L4_1,
            150 => Level::L5,
            153 => Level::L5_1,
            156 => Level::L5_2,
            180 => Level::L6,
            183 => Level::L6_1,
            186 => Level::L6_2,
            189 => Level::L6_3,
            210 => Level::L7,
            213 => Level::L7_1,
            216 => Level::L7_2,
            255 => Level::L8_5,
            _ => Level::L8_5,
        }
    }
}

impl vstd::std_specs::convert::FromSpecImpl<usize> for Level {
    open spec fn obeys_from_spec() -> bool {
        true
    }

    open spec fn from_spec(value: usize) -> Self {
        Level::spec_from(value)
    }
}

/// Decoding the value of a level gives that level back.
pub proof fn wire_value_round_trip(level: Level)
    ensures
        Level::spec_from(level.spec_usize()) == level,
{
}

/// A value that is the value of no level decodes to the top level.
pub proof fn unknown_wire_value_is_top(value: usize)
    requires
        forall|level: Level| #[trigger] level.spec_usize() != value,
    ensures
        Level::spec_from(value) == Level::L8_5,
{
    assert(Level::L1.spec_usize() != value);
    assert(Level::L2.spec_usize() != value);
    assert(Level::L2_1.spec_usize() != value);
    assert(Level::L3.spec_usize() != value);
    assert(Level::L3_1.spec_usize() != value);
    assert(Level::L4.spec_usize() != value);
    assert(Level::L4_1.spec_usize() != value);
    assert(Level::L5.spec_usize() != value);
    assert(Level::L5_1.spec_usize() != value);
    assert(Level::L5_2.spec_usize() != value);
    assert(Level::L6.spec_usize() != value);
    assert(Level::L6_1.spec_usize() != value);
    assert(Level::L6_2.spec_usize() != value);
    assert(Level::L6_3.spec_usize() != value);
    assert(Level::L7.spec_usize() != value);
    assert(Level::L7_1.spec_usize() != value);
    assert(Level::L7_2.spec_usize() != value);
    assert(Level::L8_5.spec_usize() != value);
}

/// The limits of one level.
#[derive(Debug, Clone, Copy, PartialEq, Eq, Structural)]
pub struct LevelSpecification {
    pub id: Level,
    /// Samples (pixels) per second
    pub max_luma_sample_rate: u64,
    /// MaxLumaPs (samples) per picture
    pub max_luma_picture_size: u32,
    /// Bitrate of the Main tier for 8-bit 4:2:0, in kbit/s
    pub max_bit_rate_main: u32,
    /// Bitrate of the High tier, where the level has one
    pub max_bit_rate_high: Option<u32>,
}

/// Number of pictures that a decoder buffers at the full picture size of a
/// level.
pub const MAX_DPB_PIC_BUF: u32 = 6;

impl LevelSpecification {
    /// The bitrate that the level allows for a profile and a tier: the figure
    /// of the tier scaled by the factor of the profile, kept within `u32`.
    /// A level without a High tier allows nothing there.
    pub open spec fn spec_max_bit_rate(self, profile: Profile, tier: Tier) -> Option<u32> {
        let m = profile.spec_bitrate_multiplier();
        match tier {
            Tier::Main => Some(m.spec_scale_saturating(self.max_bit_rate_main) as u32),
            Tier::High => match self.max_bit_rate_high {
                Some(v) => Some(m.spec_scale_saturating(v) as u32),
                None => None,
            },
        }
    }

    /// The size of the decoded picture buffer for a picture of `luma_samples`
    /// samples: 16 pictures up to a quarter of the greatest picture size of
    /// the level, 12 up to a half, 8 up to three quarters, 6 above.
    pub open spec fn spec_max_decoder_picture_buffer_size(self, luma_samples: nat) -> nat {
        let max = self.max_luma_picture_size as nat;
        if luma_samples <= max / 4 {
            16
        } else if luma_samples <= max / 2 {
            12
        } else if luma_samples <= (3 * max) / 4 {
            8
        } else {
            6
        }
    }

    /// The level that the record describes.
    pub fn id(&self) -> (r: Level)
        ensures
            r == self.id,
    {
        self.id
    }

    pub fn max_luma_sample_rate(&self) -> (r: u64)
        ensures
            r == self.max_luma_sample_rate,
    {
        self.max_luma_sample_rate
    }

    pub fn max_luma_picture_size(&self) -> (r: u32)
        ensures
            r == self.max_luma_picture_size,
    {
        self.max_luma_picture_size
    }

    /// The bitrate that the level allows for a profile and a tier, in kbit/s,
    /// and `None` where the level has no such tier.
    pub fn max_bit_rate(&self, profile: Profile, tier: Tier) -> (r: Option<u32>)
        ensures
            r == self.spec_max_bit_rate(profile, tier),
    {
        let m = profile.bitrate_multiplier();
        match tier {
            Tier::Main => Some(m.scale_saturating(self.max_bit_rate_main)),
            Tier::High => match self.max_bit_rate_high {
                Some(v) => Some(m.scale_saturating(v)),
                None => None,
            },
        }
    }

    /// Pictures that a decoder buffers at this level for pictures of `width`
    /// by `height` samples.
    pub fn max_decoder_picture_buffer_size(&self, width: u32, height: u32) -> (r: u32)
        ensures
            r == self.spec_max_decoder_picture_buffer_size(width as nat * height as nat),
    {
        assert(width as nat * height as nat <= 0xffff_ffff * 0xffff_ffff) by (nonlinear_arith)
            requires
                width <= 0xffff_ffff,
                height <= 0xffff_ffff,
        ;
        let luma_samples: u64 = width as u64 * height as u64;
        let max: u64 = self.max_luma_picture_size as u64;
        if luma_samples <= max / 4 {
            16
        } else if luma_samples <= max / 2 {
            2 * MAX_DPB_PIC_BUF
        } else if luma_samples <= (3 * max) / 4 {
            (4 * MAX_DPB_PIC_BUF) / 3
        } else {
            MAX_DPB_PIC_BUF
        }
    }
}

/// The buffer never grows with the picture: of two pictures at one level, the
/// one with no more samples gets at least as many buffered pictures.
pub proof fn buffer_size_is_monotonic(level: LevelSpecification, smaller: nat, larger: nat)
    requires
        smaller <= larger,
    ensures
        level.spec_max_decoder_picture_buffer_size(smaller)
            >= level.spec_max_decoder_picture_buffer_size(larger),
        6 <= level.spec_max_decoder_picture_buffer_size(larger) <= 16,
{
}

/// The table of levels, in ascending capability.
pub open spec fn level_details() -> Seq<LevelSpecification> {
    seq![
        LevelSpecification {
            id: Level::L1,
            max_luma_sample_rate: 552_960,
            max_luma_picture_size: 36_864,
            max_bit_rate_main: 128,
            max_bit_rate_high: None,
        },
        LevelSpecification {
            id: Level::L2,
            max_luma_sample_rate: 3_686_400,
            max_luma_picture_size: 122_880,
            max_bit_rate_main: 1_500,
            max_bit_rate_high: None,
        },
        LevelSpecification {
            id: Level::L2_1,
            max_luma_sample_rate: 7_372_800,
            max_luma_picture_size: 245_760,
            max_bit_rate_main: 3_000,
            max_bit_rate_high: None,
        },
        LevelSpecification {
            id: Level::L3,
            max_luma_sample_rate: 16_588_800,
            max_luma_picture_size: 552_960,
            max_bit_rate_main: 6_000,
            max_bit_rate_high: None,
        },
        LevelSpecification {
            id: Level::L3_1,
            max_luma_sample_rate: 33_177_600,
            max_luma_picture_size: 983_040,
            max_bit_rate_main: 10_000,
            max_bit_rate_high: None,
        },
        LevelSpecification {
            id: Level::L4,
            max_luma_sample_rate: 66_846_720,
            max_luma_picture_size: 2_228_224,
            max_bit_rate_main: 12_000,
            max_bit_rate_high: Some(30_000),
        },
        LevelSpecification {
            id: Level::L4_1,
            max_luma_sample_rate: 133_693_440,
            max_luma_picture_size: 2_228_224,
            max_bit_rate_main: 20_000,
            max_bit_rate_high: Some(50_000),
        },
        LevelSpecification {
            id: Level::L5,
            max_luma_sample_rate: 267_386_880,
            max_luma_picture_size: 8_912_896,
            max_bit_rate_main: 25_000,
            max_bit_rate_high: Some(100_000),
        },
        LevelSpecification {
            id: Level::L5_1,
            max_luma_sample_rate: 534_773_760,
            max_luma_picture_size: 8_912_896,
            max_bit_rate_main: 40_000,
            max_bit_rate_high: Some(160_000),
        },
        LevelSpecification {
            id: Level::L5_2,
            max_luma_sample_rate: 1_069_547_520,
            max_luma_picture_size: 8_912_896,
            max_bit_rate_main: 60_000,
            max_bit_rate_high: Some(240_000),
        },
        LevelSpecification {
            id: Level::L6,
            max_luma_sample_rate: 1_069_547_520,
            max_luma_picture_size: 35_651_584,
            max_bit_rate_main: 60_000,
            max_bit_rate_high: Some(240_000),
        },
        LevelSpecification {
            id: Level::L6_1,
            max_luma_sample_rate: 2_139_095_040,
            max_luma_picture_size: 35_651_584,
            max_bit_rate_main: 120_000,
            max_bit_rate_high: Some(480_000),
        },
        LevelSpecification {
            id: Level::L6_2,
            max_luma_sample_rate: 4_278_190_080,
            max_luma_picture_size: 35_651_584,
            max_bit_rate_main: 240_000,
            max_bit_rate_high: Some(800_000),
        },
        LevelSpecification {
            id: Level::L6_3,
            max_luma_sample_rate: 4_812_963_840,
            max_luma_picture_size: 35_651_584,
            max_bit_rate_main: 240_000,
            max_bit_rate_high: Some(1_600_000),
        },
        LevelSpecification {
            id: Level::L7,
            max_luma_sample_rate: 4_812_963_840,
            max_luma_picture_size: 142_606_336,
            max_bit_rate_main: 240_000,
            max_bit_rate_high: Some(1_600_000),
        },
        LevelSpecification {
            id: Level::L7_1,
            max_luma_sample_rate: 8_556_380_160,
            max_luma_picture_size: 142_606_336,
            max_bit_rate_main: 480_000,
            max_bit_rate_high: Some(3_200_000),
        },
        LevelSpecification {
            id: Level::L7_2,
            max_luma_sample_rate: 17_112_760_320,
            max_luma_picture_size: 142_606_336,
            max_bit_rate_main: 960_000,
            max_bit_rate_high: Some(6_400_000),
        },
        LevelSpecification {
            id: Level::L8_5,
            max_luma_sample_rate: u64::MAX,
            max_luma_picture_size: u32::MAX,
            max_bit_rate_main: u32::MAX,
            max_bit_rate_high: Some(u32::MAX),
        },
    ]
}

/// The record at a place of the table, counted from 0.
pub fn level_detail(index: usize) -> (r: LevelSpecification)
    requires
        index < LEVEL_COUNT,
    ensures
        r == level_details()[index as int],
{
    match index {
        0 => LevelSpecification {
            id: Level::L1,
            max_luma_sample_rate: 552_960,
            max_luma_picture_size: 36_864,
            max_bit_rate_main: 128,
            max_bit_rate_high: None,
        },
        1 => LevelSpecification {
            id: Level::L2,
            max_luma_sample_rate: 3_686_400,
            max_luma_picture_size: 122_880,
            max_bit_rate_main: 1_500,
            max_bit_rate_high: None,
        },
        2 => LevelSpecification {
            id: Level::L2_1,
            max_luma_sample_rate: 7_372_800,
            max_luma_picture_size: 245_760,
            max_bit_rate_main: 3_000,
            max_bit_rate_high: None,
        },
        3 => LevelSpecification {
            id: Level::L3,
            max_luma_sample_rate: 16_588_800,
            max_luma_picture_size: 552_960,
            max_bit_rate_main: 6_000,
            max_bit_rate_high: None,
        },
        4 => LevelSpecification {
            id: Level::L3_1,
            max_luma_sample_rate: 33_177_600,
            max_luma_picture_size: 983_040,
            max_bit_rate_main: 10_000,
            max_bit_rate_high: None,
        },
        5 => LevelSpecification {
            id: Level::L4,
            max_luma_sample_rate: 66_846_720,
            max_luma_picture_size: 2_228_224,
            max_bit_rate_main: 12_000,
            max_bit_rate_high: Some(30_000),
        },
        6 => LevelSpecification {
            id: Level::L4_1,
            max_luma_sample_rate: 133_693_440,
            max_luma_picture_size: 2_228_224,
            max_bit_rate_main: 20_000,
            max_bit_rate_high: Some(50_000),
        },
        7 => LevelSpecification {
            id: Level::L5,
            max_luma_sample_rate: 267_386_880,
            max_luma_picture_size: 8_912_896,
            max_bit_rate_main: 25_000,
            max_bit_rate_high: Some(100_000),
        },
        8 => LevelSpecification {
            id: Level::L5_1,
            max_luma_sample_rate: 534_773_760,
            max_luma_picture_size: 8_912_896,
            max_bit_rate_main: 40_000,
            max_bit_rate_high: Some(160_000),
        },
        9 => LevelSpecification {
            id: Level::L5_2,
            max_luma_sample_rate: 1_069_547_520,
            max_luma_picture_size: 8_912_896,
            max_bit_rate_main: 60_000,
            max_bit_rate_high: Some(240_000),
        },
        10 => LevelSpecification {
            id: Level::L6,
            max_luma_sample_rate: 1_069_547_520,
            max_luma_picture_size: 35_651_584,
            max_bit_rate_main: 60_000,
            max_bit_rate_high: Some(240_000),
        },
        11 => LevelSpecification {
            id: Level::L6_1,
            max_luma_sample_rate: 2_139_095_040,
            max_luma_picture_size: 35_651_584,
            max_bit_rate_main: 120_000,
            max_bit_rate_high: Some(480_000),
        },
        12 => LevelSpecification {
            id: Level::L6_2,
            max_luma_sample_rate: 4_278_190_080,
            max_luma_picture_size: 35_651_584,
            max_bit_rate_main: 240_000,
            max_bit_rate_high: Some(800_000),
        },
        13 => LevelSpecification {
            id: Level::L6_3,
            max_luma_sample_rate: 4_812_963_840,
            max_luma_picture_size: 35_651_584,
            max_bit_rate_main: 240_000,
            max_bit_rate_high: Some(1_600_000),
        },
        14 => LevelSpecification {
            id: Level::L7,
            max_luma_sample_rate: 4_812_963_840,
            max_luma_picture_size: 142_606_336,
            max_bit_rate_main: 240_000,
            max_bit_rate_high: Some(1_600_000),
        },
        15 => LevelSpecification {
            id: Level::L7_1,
            max_luma_sample_rate: 8_556_380_160,
            max_luma_picture_size: 142_606_336,
            max_bit_rate_main: 480_000,
            max_bit_rate_high: Some(3_200_000),
        },
        16 => LevelSpecification {
            id: Level::L7_2,
            max_luma_sample_rate: 17_112_760_320,
            max_luma_picture_size: 142_606_336,
            max_bit_rate_main: 960_000,
            max_bit_rate_high: Some(6_400_000),
        },
        _ => LevelSpecification {
            id: Level::L8_5,
            max_luma_sample_rate: u64::MAX,
            max_luma_picture_size: u32::MAX,
            max_bit_rate_main: u32::MAX,
            max_bit_rate_high: Some(u32::MAX),
        },
    }
}

/// A bitrate of the High tier is not followed by a lower one, nor by none.
pub open spec fn high_tier_ordered(before: Option<u32>, after: Option<u32>) -> bool {
    match (before, after) {
        (Some(a), Some(b)) => a <= b,
        (Some(_), None) => false,
        (None, _) => true,
    }
}

/// No limit of the record `after` is below that of the record `before`.
pub open spec fn no_limit_below(before: LevelSpecification, after: LevelSpecification) -> bool {
    &&& before.max_luma_sample_rate <= after.max_luma_sample_rate
    &&& before.max_luma_picture_size <= after.max_luma_picture_size
    &&& before.max_bit_rate_main <= after.max_bit_rate_main
    &&& high_tier_ordered(before.max_bit_rate_high, after.max_bit_rate_high)
}

/// The table holds one record for each level, at the place of its rank, and
/// no limit of a record is below that of a record before it.
pub proof fn table_is_ordered(i: int, j: int)
    requires
        0 <= i <= j < LEVEL_COUNT,
    ensures
        level_details().len() == LEVEL_COUNT,
        level_details()[i].id.spec_rank() == i,
        no_limit_below(level_details()[i], level_details()[j]),
        i < j ==> level_details()[i].id.spec_rank() < level_details()[j].id.spec_rank(),
{
    let t = level_details();
    assert forall|k: int| 0 <= k < LEVEL_COUNT - 1 implies {
        &&& (#[trigger] t[k]).id.spec_rank() == k
        &&& no_limit_below(t[k], t[k + 1])
    } by {}
    assert(t[LEVEL_COUNT - 1].id.spec_rank() == LEVEL_COUNT - 1);
    steps_add_up(i, j);
}

proof fn steps_add_up(i: int, j: int)
    requires
        0 <= i <= j < LEVEL_COUNT,
        forall|k: int|
            0 <= k < LEVEL_COUNT - 1 ==> no_limit_below(
                #[trigger] level_details()[k],
                level_details()[k + 1],
            ),
    ensures
        no_limit_below(level_details()[i], level_details()[j]),
    decreases j - i,
{
    if i < j {
        steps_add_up(i, j - 1);
        assert(no_limit_below(level_details()[j - 1], level_details()[j - 1 + 1]));
    }
}

/// The whole table, in ascending capability.
pub fn level_table() -> (r: Vec<LevelSpecification>)
    ensures
        r@ == level_details(),
{
    let mut table: Vec<LevelSpecification> = Vec::new();
    let mut i: usize = 0;
    while i < LEVEL_COUNT
        invariant
            i <= LEVEL_COUNT,
            table@.len() == i,
            forall|k: int| 0 <= k < i ==> table@[k] == level_details()[k],
        decreases LEVEL_COUNT - i,
    {
        table.push(level_detail(i));
        i += 1;
    }
    proof {
        table_is_ordered(0, 0);
        assert(table@ =~= level_details());
    }
    table
}

/// The record that `get` gives for a level: the record of the table with that
/// level, and the last record where the table has none.
pub open spec fn spec_get(level: Level) -> LevelSpecification {
    if exists|i: int| 0 <= i < LEVEL_COUNT && (#[trigger] level_details()[i]).id == level {
        let i = choose|i: int| 0 <= i < LEVEL_COUNT && (#[trigger] level_details()[i]).id == level;
        level_details()[i]
    } else {
        level_details()[LEVEL_COUNT - 1]
    }
}

/// Every level has its record: `get` gives the record at the rank of the
/// level, and the record names the level.
pub proof fn get_gives_the_level(level: Level)
    ensures
        spec_get(level) == level_details()[level.spec_rank() as int],
        spec_get(level).id == level,
{
    let r = level.spec_rank() as int;
    table_is_ordered(r, r);
    assert(level_details()[r].id.spec_rank() == level.spec_rank());
    assert(level_details()[r].id == level);
    let i = choose|i: int| 0 <= i < LEVEL_COUNT && (#[trigger] level_details()[i]).id == level;
    table_is_ordered(i, i);
}

/// The record of a level, found by a scan of the table. A level that the
/// table does not hold gets the last record.
pub fn get(level: Level) -> (r: LevelSpecification)
    ensures
        r == spec_get(level),
        r.id == level,
{
    proof {
        get_gives_the_level(level);
    }
    let mut i: usize = 0;
    while i < LEVEL_COUNT
        invariant
            i <= LEVEL_COUNT,
            forall|k: int| 0 <= k < i ==> (#[trigger] level_details()[k]).id != level,
            spec_get(level) == level_details()[level.spec_rank() as int],
            spec_get(level).id == level,
        decreases LEVEL_COUNT - i,
    {
        let l = level_detail(i);
        if l.id() == level {
            proof {
                table_is_ordered(i as int, i as int);
            }
            return l;
        }
        i += 1;
    }
    level_detail(LEVEL_COUNT - 1)
}

/// A workload and the bounds of a choice of level. `framerate` counts whole
/// pictures per second: a fractional rate is rounded up before it gets here.
#[derive(Debug, Clone, Copy, PartialEq, Eq, Structural)]
pub struct LevelSelector {
    pub width: u32,
    pub height: u32,
    pub framerate: u64,
    pub tier: Tier,
    pub profile: Profile,
    pub min_level: Option<Level>,
    pub max_level: Option<Level>,
    pub max_bitrate: Option<u32>,
}

impl LevelSelector {
    /// The selector that `new` gives: 1920x1080 at 30 pictures per second,
    /// Main tier and profile, no bound on level or bitrate.
    pub open spec fn spec_new() -> LevelSelector {
        LevelSelector {
            width: 1920,
            height: 1080,
            framerate: 30,
            tier: Tier::Main,
            profile: Profile::Main,
            min_level: None,
            max_level: None,
            max_bitrate: None,
        }
    }

    /// Luma samples per second that the workload asks for.
    pub open spec fn demand(self) -> nat {
        self.width as nat * self.height as nat * self.framerate as nat
    }

    /// The level has the sample rate that the workload asks for.
    pub open spec fn has_capacity(self, level: LevelSpecification) -> bool {
        self.demand() <= level.max_luma_sample_rate
    }

    /// The level has a bitrate for the tier, and where a bitrate is asked
    /// for, at least that.
    pub open spec fn has_bitrate(self, level: LevelSpecification) -> bool {
        match level.spec_max_bit_rate(self.profile, self.tier) {
            Some(available) => match self.max_bitrate {
                Some(wanted) => available >= wanted,
                None => true,
            },
            None => false,
        }
    }

    /// The level is not below the lower bound, where there is one.
    pub open spec fn reaches_floor(self, level: LevelSpecification) -> bool {
        match self.min_level {
            Some(min) => level.id.spec_rank() >= min.spec_rank(),
            None => true,
        }
    }

    /// The level is not above the upper bound, where there is one.
    pub open spec fn within_ceiling(self, level: LevelSpecification) -> bool {
        match self.max_level {
            Some(max) => level.id.spec_rank() <= max.spec_rank(),
            None => true,
        }
    }

    /// The scan stops at this level: it has the capacity and the bitrate and
    /// reaches the lower bound.
    pub open spec fn qualifies(self, level: LevelSpecification) -> bool {
        self.has_capacity(level) && self.has_bitrate(level) && self.reaches_floor(level)
    }

    /// Place of the first record from `start` on that qualifies, and
    /// `LEVEL_COUNT` where none does.
    pub open spec fn first_qualifying(self, start: int) -> int
        decreases LEVEL_COUNT - start,
    {
        if start < 0 || start >= LEVEL_COUNT {
            LEVEL_COUNT as int
        } else if self.qualifies(level_details()[start]) {
            start
        } else {
            self.first_qualifying(start + 1)
        }
    }

    /// The record that the scan settles on: the first that qualifies, and
    /// the last record of the table where none does.
    pub open spec fn chosen(self) -> LevelSpecification {
        let i = self.first_qualifying(0);
        if i < LEVEL_COUNT {
            level_details()[i]
        } else {
            level_details()[LEVEL_COUNT - 1]
        }
    }

    /// The result of `select`: the record that the scan settles on, unless
    /// it is above the upper bound.
    pub open spec fn spec_select(self) -> Option<LevelSpecification> {
        if self.within_ceiling(self.chosen()) {
            Some(self.chosen())
        } else {
            None
        }
    }

    /// 1920x1080 at 30 pictures per second, no bound on level or bitrate.
    pub fn new() -> (r: Self)
        ensures
            r == Self::spec_new(),
    {
        Self {
            // Define default behaviour if no constraints are set
            width: 1920,
            height: 1080,
            framerate: 30,
            tier: Tier::Main,
            profile: Profile::Main,
            // Ignore if not set
            min_level: None,
            max_level: None,
            max_bitrate: None,
        }
    }

    pub fn width(self, width: u32) -> (r: Self)
        ensures
            r == (LevelSelector { width, ..self }),
    {
        LevelSelector { width, ..self }
    }

    pub fn height(self, height: u32) -> (r: Self)
        ensures
            r == (LevelSelector { height, ..self }),
    {
        LevelSelector { height, ..self }
    }

    /// Sets the pictures per second, as a whole number.
    pub fn framerate(self, framerate: u64) -> (r: Self)
        ensures
            r == (LevelSelector { framerate, ..self }),
    {
        LevelSelector { framerate, ..self }
    }

    /// Sets both bounds on the level: `min` is a floor for the scan, `max` a
    /// ceiling for its result.
    pub fn clamp(self, min: Level, max: Level) -> (r: Self)
        ensures
            r == (LevelSelector { min_level: Some(min), max_level: Some(max), ..self }),
    {
        LevelSelector { min_level: Some(min), max_level: Some(max), ..self }
    }

    /// Asks for a level that allows at least this bitrate.
    pub fn max_bitrate(self, max_bitrate: u32) -> (r: Self)
        ensures
            r == (LevelSelector { max_bitrate: Some(max_bitrate), ..self }),
    {
        LevelSelector { max_bitrate: Some(max_bitrate), ..self }
    }

    pub fn tier(self, tier: Tier) -> (r: Self)
        ensures
            r == (LevelSelector { tier, ..self }),
    {
        LevelSelector { tier, ..self }
    }

    pub fn profile(self, profile: Profile) -> (r: Self)
        ensures
            r == (LevelSelector { profile, ..self }),
    {
        LevelSelector { profile, ..self }
    }

    /// Whether `select` stops at a record: the executable form of
    /// `qualifies`, on the demand computed once for the scan.
    fn stops_at(&self, demand: u128, level: &LevelSpecification) -> (r: bool)
        requires
            demand == self.demand(),
        ensures
            r == self.qualifies(*level),
    {
        if demand > level.max_luma_sample_rate as u128 {
            return false;
        }
        // Check if level fits within the max specified bitrate
        let fits = match (self.max_bitrate, level.max_bit_rate(self.profile, self.tier)) {
            (Some(bitrate_constraint), Some(level_max_bitrate)) => level_max_bitrate
                >= bitrate_constraint,
            (None, Some(_)) => true,
            _ => false,
        };
        if !fits {
            return false;
        }
        // Clamp to min level
        match self.min_level {
            Some(min) => level.id().rank() >= min.rank(),
            None => true,
        }
    }

    /// The record, unless it is above the upper bound.
    fn unless_above_ceiling(&self, chosen: LevelSpecification) -> (r: Option<LevelSpecification>)
        ensures
            r == if self.within_ceiling(chosen) {
                Some(chosen)
            } else {
                None
            },
    {
        // Check if exceeds max level
        match self.max_level {
            Some(max) => if chosen.id().rank() > max.rank() {
                None
            } else {
                Some(chosen)
            },
            None => Some(chosen),
        }
    }

    /// The lowest level of the table that accommodates the workload. Where no
    /// record does, the last record of the table stands in. `None` where the
    /// record found is above the upper bound.
    pub fn select(self) -> (r: Option<LevelSpecification>)
        ensures
            r == self.spec_select(),
    {
        assert(self.width as nat * self.height as nat <= 0xffff_ffff * 0xffff_ffff)
            by (nonlinear_arith)
            requires
                self.width <= 0xffff_ffff,
                self.height <= 0xffff_ffff,
        ;
        let samples: u128 = self.width as u128 * self.height as u128;
        assert(samples * self.framerate as nat <= 0xffff_ffff * 0xffff_ffff
            * 0xffff_ffff_ffff_ffff) by (nonlinear_arith)
            requires
                samples <= 0xffff_ffff * 0xffff_ffff,
                self.framerate <= 0xffff_ffff_ffff_ffff,
        ;
        let demand: u128 = samples * self.framerate as u128;
        let mut i: usize = 0;
        while i < LEVEL_COUNT
            invariant
                i <= LEVEL_COUNT,
                demand == self.demand(),
                self.first_qualifying(0) == self.first_qualifying(i as int),
            decreases LEVEL_COUNT - i,
        {
            let level = level_detail(i);
            if self.stops_at(demand, &level) {
                return self.unless_above_ceiling(level);
            }
            i += 1;
        }
        self.unless_above_ceiling(level_detail(LEVEL_COUNT - 1))
    }
}

/// What `first_qualifying` finds: a place from `start` on; the record there
/// qualifies; no record between `start` and it does.
pub proof fn first_qualifying_is_first(s: LevelSelector, start: int)
    requires
        0 <= start <= LEVEL_COUNT,
    ensures
        start <= s.first_qualifying(start) <= LEVEL_COUNT,
        s.first_qualifying(start) < LEVEL_COUNT ==> s.qualifies(
            level_details()[s.first_qualifying(start)],
        ),
        forall|k: int|
            start <= k < s.first_qualifying(start) ==> !s.qualifies(#[trigger] level_details()[k]),
    decreases LEVEL_COUNT - start,
{
    if start < LEVEL_COUNT && !s.qualifies(level_details()[start]) {
        first_qualifying_is_first(s, start + 1);
    }
}

/// `select` finds the least sufficient level. A record that it returns
/// either qualifies, and then no record before it does, or it is the last
/// record of the table, and then no record qualifies at all.
pub proof fn select_is_minimal(s: LevelSelector, found: LevelSpecification)
    requires
        s.spec_select() == Some(found),
    ensures
        found.id.spec_rank() < LEVEL_COUNT,
        found == level_details()[found.id.spec_rank() as int],
        forall|k: int|
            0 <= k < found.id.spec_rank() ==> !s.qualifies(#[trigger] level_details()[k]),
        s.qualifies(found) || (found == level_details()[LEVEL_COUNT - 1] && forall|k: int|
            0 <= k < LEVEL_COUNT ==> !s.qualifies(#[trigger] level_details()[k])),
{
    first_qualifying_is_first(s, 0);
    let i = s.first_qualifying(0);
    if i < LEVEL_COUNT {
        table_is_ordered(i, i);
    } else {
        table_is_ordered(LEVEL_COUNT - 1, LEVEL_COUNT - 1);
    }
}

/// Capacity and bitrate do not fall along the table: what a record has for a
/// workload, every later record has.
pub proof fn capacity_and_bitrate_are_kept(s: LevelSelector, i: int, j: int)
    requires
        0 <= i <= j < LEVEL_COUNT,
    ensures
        s.has_capacity(level_details()[i]) ==> s.has_capacity(level_details()[j]),
        s.has_bitrate(level_details()[i]) ==> s.has_bitrate(level_details()[j]),
        s.reaches_floor(level_details()[i]) ==> s.reaches_floor(level_details()[j]),
{
    table_is_ordered(i, j);
    table_is_ordered(j, j);
    let m = s.profile.spec_bitrate_multiplier();
    crate::common::scale_monotonic(
        m,
        level_details()[i].max_bit_rate_main,
        level_details()[j].max_bit_rate_main,
    );
    if level_details()[i].max_bit_rate_high.is_some() {
        crate::common::scale_monotonic(
            m,
            level_details()[i].max_bit_rate_high.unwrap(),
            level_details()[j].max_bit_rate_high.unwrap(),
        );
    }
}

/// An upper bound below the level that the workload needs gives no level:
/// where the selector without its bounds settles on a level above `max`, the
/// selector with the upper bound `max`, whatever its lower bound, returns
/// `None`.
pub proof fn ceiling_below_need_gives_none(s: LevelSelector, max: Level)
    requires
        s.max_level == Some(max),
        (LevelSelector { min_level: None, max_level: None, ..s }).chosen().id.spec_rank()
            > max.spec_rank(),
    ensures
        s.spec_select().is_none(),
{
    let free = LevelSelector { min_level: None, max_level: None, ..s };
    first_qualifying_is_first(s, 0);
    first_qualifying_is_first(free, 0);
    let i = s.first_qualifying(0);
    let j = free.first_qualifying(0);
    if i < LEVEL_COUNT {
        assert(free.qualifies(level_details()[i]));
        assert(j <= i);
        table_is_ordered(j, i);
    } else {
        table_is_ordered(LEVEL_COUNT - 1, LEVEL_COUNT - 1);
        if j < LEVEL_COUNT {
            table_is_ordered(j, LEVEL_COUNT - 1);
        }
    }
}

/// With a lower bound that is not above the upper bound, `select` returns
/// `None` in no other case: where the selector without its bounds settles on
/// a level that is not above `max`, the selector with its bounds returns a
/// level.
pub proof fn ceiling_at_need_gives_some(s: LevelSelector, max: Level)
    requires
        s.max_level == Some(max),
        match s.min_level {
            Some(min) => min.spec_rank() <= max.spec_rank(),
            None => true,
        },
        (LevelSelector { min_level: None, max_level: None, ..s }).chosen().id.spec_rank()
            <= max.spec_rank(),
    ensures
        s.spec_select().is_some(),
{
    let free = LevelSelector { min_level: None, max_level: None, ..s };
    first_qualifying_is_first(s, 0);
    first_qualifying_is_first(free, 0);
    let i = s.first_qualifying(0);
    let j = free.first_qualifying(0);
    table_is_ordered(LEVEL_COUNT - 1, LEVEL_COUNT - 1);
    if i < LEVEL_COUNT {
        table_is_ordered(i, i);
        assert(free.qualifies(level_details()[i]));
        table_is_ordered(j, j);
        if i > j {
            // the floor alone kept the scan from stopping before `i`
            capacity_and_bitrate_are_kept(free, j, i - 1);
            assert(free.qualifies(level_details()[i - 1]));
            assert(!s.qualifies(level_details()[i - 1]));
            table_is_ordered(i - 1, i - 1);
        }
    } else if j < LEVEL_COUNT {
        // the floor is above every record that qualifies without it
        capacity_and_bitrate_are_kept(free, j, LEVEL_COUNT - 1);
        assert(free.qualifies(level_details()[LEVEL_COUNT - 1]));
        assert(!s.qualifies(level_details()[LEVEL_COUNT - 1]));
    }
}

/// A lower bound is a floor: a level that `select` returns under the lower
/// bound `min` is never below `min`.
pub proof fn floor_is_kept(s: LevelSelector, min: Level)
    requires
        s.min_level == Some(min),
        s.spec_select().is_some(),
    ensures
        s.spec_select().unwrap().id.spec_rank() >= min.spec_rank(),
{
    first_qualifying_is_first(s, 0);
    table_is_ordered(LEVEL_COUNT - 1, LEVEL_COUNT - 1);
}

/// A lower bound below the level that the workload needs changes nothing:
/// where the selector without a lower bound settles on a level that is not
/// below `min`, the selector with the lower bound `min` settles on the same.
pub proof fn floor_below_need_changes_nothing(s: LevelSelector, min: Level)
    requires
        s.min_level == Some(min),
        (LevelSelector { min_level: None, ..s }).chosen().id.spec_rank() >= min.spec_rank(),
    ensures
        s.spec_select() == (LevelSelector { min_level: None, ..s }).spec_select(),
{
    let free = LevelSelector { min_level: None, ..s };
    first_qualifying_is_first(s, 0);
    first_qualifying_is_first(free, 0);
    let i = s.first_qualifying(0);
    let j = free.first_qualifying(0);
    if i < LEVEL_COUNT {
        assert(free.qualifies(level_details()[i]));
    }
    if j < LEVEL_COUNT {
        table_is_ordered(j, j);
        assert(s.qualifies(level_details()[j]));
    }
}

/// A workload beyond every level falls back to the top of the table: where
/// there is no upper bound, and the workload asks for more than the last
/// record has, in capacity or in bitrate, `select` returns the last record.
pub proof fn beyond_every_level_gives_top(s: LevelSelector)
    requires
        s.max_level.is_none(),
        !s.has_capacity(level_details()[LEVEL_COUNT - 1]) || !s.has_bitrate(
            level_details()[LEVEL_COUNT - 1],
        ),
    ensures
        s.spec_select() == Some(level_details()[LEVEL_COUNT - 1]),
{
    first_qualifying_is_first(s, 0);
    let i = s.first_qualifying(0);
    if i < LEVEL_COUNT {
        capacity_and_bitrate_are_kept(s, i, LEVEL_COUNT - 1);
        assert(s.qualifies(level_details()[i]));
    }
}

/// More pictures per second never give a lower level: of two selectors that
/// differ in the frame rate alone, the one with the higher rate settles on a
/// level of at least the rank of the other.
pub proof fn select_is_monotonic_in_framerate(s: LevelSelector, faster: u64)
    requires
        s.framerate <= faster,
    ensures
        s.chosen().id.spec_rank() <= (LevelSelector {
            framerate: faster,
            ..s
        }).chosen().id.spec_rank(),
{
    let f = LevelSelector { framerate: faster, ..s };
    first_qualifying_is_first(s, 0);
    first_qualifying_is_first(f, 0);
    let i = s.first_qualifying(0);
    let j = f.first_qualifying(0);
    assert(s.demand() <= f.demand()) by (nonlinear_arith)
        requires
            s.demand() == (s.width as nat * s.height as nat) * s.framerate as nat,
            f.demand() == (s.width as nat * s.height as nat) * faster as nat,
            s.framerate <= faster,
    ;
    table_is_ordered(LEVEL_COUNT - 1, LEVEL_COUNT - 1);
    if j < LEVEL_COUNT {
        assert(s.qualifies(level_details()[j]));
        assert(i <= j);
        table_is_ordered(i, j);
    } else if i < LEVEL_COUNT {
        table_is_ordered(i, LEVEL_COUNT - 1);
    }
}

} // verus!
