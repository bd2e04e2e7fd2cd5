use video_levels::common::ProfileConstraint;
use video_levels::hevc::get;
use video_levels::hevc::level_detail;
use video_levels::hevc::level_table;
use video_levels::hevc::pixel_multiplier;
use video_levels::hevc::Level;
use video_levels::hevc::LevelSelector;
use video_levels::hevc::LevelSpecification;
use video_levels::hevc::Profile;
use video_levels::hevc::Tier;
use video_levels::hevc::LEVEL_COUNT;
use yuv::color::ChromaSampling;
use yuv::color::Depth;

/// Whole pictures per second for a rate that may be fractional.
fn fps(rate: f32) -> u64 {
    rate.ceil() as u64
}

const ALL_LEVELS: [Level; 18] = [
    Level::L1,
    Level::L2,
    Level::L2_1,
    Level::L3,
    Level::L3_1,
    Level::L4,
    Level::L4_1,
    Level::L5,
    Level::L5_1,
    Level::L5_2,
    Level::L6,
    Level::L6_1,
    Level::L6_2,
    Level::L6_3,
    Level::L7,
    Level::L7_1,
    Level::L7_2,
    Level::L8_5,
];

#[test]
fn hevc_level_mult() {
    assert_eq!(Level::L6_2, Level::from(186));
}

#[test]
fn hevc_max_bitrate() {
    // test level 5.2
    let l = get(Level::L5_2);
    assert_eq!(l.id(), Level::L5_2);
    assert_eq!(l.max_bit_rate(Profile::Main, Tier::Main), Some(60_000));
    assert_eq!(l.max_bit_rate(Profile::Main12, Tier::Main), Some(90_000));
    assert_eq!(l.max_bit_rate(Profile::Main444, Tier::Main), Some(180_000));
    assert_eq!(
        l.max_bit_rate(Profile::Main444_16Intra, Tier::Main),
        Some(480_000)
    );
    assert_eq!(
        l.max_bit_rate(Profile::Main444_16IntraHighThroughput, Tier::Main),
        Some(5_760_000)
    );
    assert_eq!(l.max_bit_rate(Profile::Main444, Tier::High), Some(720_000));
    assert_eq!(
        l.max_bit_rate(Profile::Main444_16Intra, Tier::High),
        Some(1_920_000)
    );
    assert_eq!(
        l.max_bit_rate(Profile::Main444_16IntraHighThroughput, Tier::High),
        Some(23_040_000)
    );

    // test level 2
    let l = get(Level::L2);
    assert_eq!(l.id(), Level::L2);
    assert_eq!(l.max_bit_rate(Profile::Main, Tier::Main), Some(1_500));
}

#[test]
fn max_dpb_pic_buf() {
    let l = get(Level::L4);
    assert_eq!(l.max_decoder_picture_buffer_size(1280, 720), 12);
    assert_eq!(l.max_decoder_picture_buffer_size(1920, 1080), 6);

    let l = get(Level::L5_2);
    assert_eq!(l.max_decoder_picture_buffer_size(1920, 1080), 16);
    assert_eq!(l.max_decoder_picture_buffer_size(2560, 1440), 12);
    assert_eq!(l.max_decoder_picture_buffer_size(3840, 2160), 6);
}

#[test]
fn hevc_select_base_cases() {
    assert_eq!(
        LevelSelector::new()
            .width(1920)
            .height(1080)
            .framerate(fps(30.0))
            .tier(Tier::Main)
            .profile(Profile::Main)
            .select()
            .unwrap()
            .id(),
        Level::L4
    );

    assert_eq!(
        LevelSelector::new()
            .width(3840)
            .height(2160)
            .framerate(fps(30.0))
            .tier(Tier::Main)
            .profile(Profile::Main)
            .select()
            .unwrap()
            .id(),
        Level::L5
    );

    assert_eq!(
        LevelSelector::new()
            .width(3840)
            .height(2160)
            .framerate(fps(60.0))
            .tier(Tier::Main)
            .profile(Profile::Main)
            .select()
            .unwrap()
            .id(),
        Level::L5_1
    );

    assert_eq!(
        LevelSelector::new()
            .width(3840)
            .height(2160)
            .framerate(fps(66.0))
            .tier(Tier::Main)
            .profile(Profile::Main)
            .select()
            .unwrap()
            .id(),
        Level::L5_2
    );
}

#[test]
fn hevc_select_clamp_cases() {
    assert_eq!(
        LevelSelector::new()
            .width(1920)
            .height(1080)
            .framerate(fps(60.0))
            .tier(Tier::Main)
            .profile(Profile::Main)
            .clamp(Level::L5_2, Level::L7_1)
            .select()
            .unwrap()
            .id(),
        Level::L5_2
    );

    assert!(LevelSelector::new()
        .width(1920)
        .height(1080)
        .framerate(fps(60.0))
        .tier(Tier::Main)
        .profile(Profile::Main)
        .clamp(Level::L2, Level::L2_1)
        .select()
        .is_none());
}

#[test]
fn select_bitrate_cases() {
    assert_eq!(
        LevelSelector::new()
            .width(1920)
            .height(1080)
            .framerate(fps(60.0))
            .tier(Tier::Main)
            .profile(Profile::Main)
            .max_bitrate(80000)
            .select()
            .unwrap()
            .id(),
        Level::L6_1
    );
}

#[test]
fn hevc_table_is_ordered() {
    assert_eq!(LEVEL_COUNT, 18);
    for i in 0..LEVEL_COUNT {
        let l = level_detail(i);
        assert_eq!(l.id(), ALL_LEVELS[i]);
        assert_eq!(l.id().rank(), i);
        if i + 1 < LEVEL_COUNT {
            let next = level_detail(i + 1);
            assert!(l.max_luma_sample_rate() <= next.max_luma_sample_rate());
            assert!(l.max_luma_picture_size() <= next.max_luma_picture_size());
            assert!(l.max_bit_rate_main <= next.max_bit_rate_main);
            assert!(l.max_bit_rate_high.is_none() || next.max_bit_rate_high >= l.max_bit_rate_high);
            assert!(l.id() < next.id());
        }
    }
}

#[test]
fn hevc_table_values() {
    let l = level_detail(0);
    assert_eq!(l.max_luma_sample_rate(), 552_960);
    assert_eq!(l.max_luma_picture_size(), 36_864);
    assert_eq!(l.max_bit_rate_main, 128);
    assert_eq!(l.max_bit_rate_high, None);
    let l = get(Level::L6_3);
    assert_eq!(l.max_luma_sample_rate(), 4_812_963_840);
    assert_eq!(l.max_luma_picture_size(), 35_651_584);
    assert_eq!(l.max_bit_rate_main, 240_000);
    assert_eq!(l.max_bit_rate_high, Some(1_600_000));
    let l = get(Level::L8_5);
    assert_eq!(l.max_luma_sample_rate(), u64::MAX);
    assert_eq!(l.max_luma_picture_size(), u32::MAX);
    assert_eq!(l.max_bit_rate(Profile::Main, Tier::Main), Some(u32::MAX));
    assert_eq!(
        l.max_bit_rate(Profile::Main444_16IntraHighThroughput, Tier::High),
        Some(u32::MAX)
    );
}

#[test]
fn hevc_get_gives_the_level() {
    for level in ALL_LEVELS {
        assert_eq!(get(level).id(), level);
        assert_eq!(get(level), level_detail(level.rank()));
    }
}

#[test]
fn hevc_wire_value_round_trip() {
    for level in ALL_LEVELS {
        assert_eq!(Level::from(level.usize()), level);
    }
    assert_eq!(Level::L1.usize(), 30);
    assert_eq!(Level::L2_1.usize(), 63);
    assert_eq!(Level::L8_5.usize(), 255);
}

#[test]
fn hevc_unknown_wire_value_is_top() {
    assert_eq!(Level::from(0), Level::L8_5);
    assert_eq!(Level::from(31), Level::L8_5);
    assert_eq!(Level::from(254), Level::L8_5);
    assert_eq!(Level::from(usize::MAX), Level::L8_5);
}

#[test]
fn hevc_level_names() {
    assert_eq!(Level::L1.name(), "1");
    assert_eq!(Level::L2_1.name(), "2.1");
    assert_eq!(Level::L6_3.name(), "6.3");
    assert_eq!(Level::L8_5.name(), "8.1");
}

#[test]
fn hevc_default_selection() {
    let s = LevelSelector::new();
    assert_eq!(s.width, 1920);
    assert_eq!(s.height, 1080);
    assert_eq!(s.framerate, 30);
    assert_eq!(s.tier, Tier::Main);
    assert_eq!(s.profile, Profile::Main);
    assert_eq!(s.min_level, None);
    assert_eq!(s.max_level, None);
    assert_eq!(s.max_bitrate, None);
    let chosen = s.select().unwrap();
    assert_eq!(chosen.id(), Level::L4);
    // the smallest sample rate that holds 1920 x 1080 x 30
    assert!(chosen.max_luma_sample_rate() >= 1920 * 1080 * 30);
    assert!(get(Level::L3_1).max_luma_sample_rate() < 1920 * 1080 * 30);
}

#[test]
fn hevc_higher_rate_needs_higher_level() {
    let slow = LevelSelector::new().width(3840).height(2160).framerate(fps(30.0));
    let fast = LevelSelector::new().width(3840).height(2160).framerate(fps(60.0));
    assert!(fast.select().unwrap().id() > slow.select().unwrap().id());
}

#[test]
fn hevc_fractional_rate_is_rounded_up() {
    // 3840 x 2160 x 64 fits level 5.1 exactly, one picture more does not
    assert_eq!(
        LevelSelector::new().width(3840).height(2160).framerate(fps(64.0)).select().unwrap().id(),
        Level::L5_1
    );
    assert_eq!(
        LevelSelector::new().width(3840).height(2160).framerate(fps(64.2)).select().unwrap().id(),
        Level::L5_2
    );
}

#[test]
fn hevc_floor_is_kept() {
    let chosen = LevelSelector::new().clamp(Level::L6, Level::L8_5).select().unwrap();
    assert_eq!(chosen.id(), Level::L6);
    // a floor below the need changes nothing
    let chosen = LevelSelector::new().clamp(Level::L1, Level::L8_5).select().unwrap();
    assert_eq!(chosen.id(), Level::L4);
}

#[test]
fn hevc_ceiling_below_need_gives_none() {
    assert!(LevelSelector::new().clamp(Level::L1, Level::L3_1).select().is_none());
    assert_eq!(
        LevelSelector::new().clamp(Level::L1, Level::L4).select().unwrap().id(),
        Level::L4
    );
}

#[test]
fn hevc_high_tier_skips_levels_without_it() {
    // 640 x 360 at 30 fits level 2.1, which has no High tier
    let main = LevelSelector::new().width(640).height(360).framerate(30);
    assert_eq!(main.select().unwrap().id(), Level::L2_1);
    let high = LevelSelector::new().width(640).height(360).framerate(30).tier(Tier::High);
    assert_eq!(high.select().unwrap().id(), Level::L4);
    let high = high.max_bitrate(30_001);
    assert_eq!(high.select().unwrap().id(), Level::L4_1);
}

#[test]
fn hevc_beyond_every_level_gives_top() {
    let s = LevelSelector::new().width(u32::MAX).height(u32::MAX).framerate(u64::MAX);
    assert_eq!(s.select().unwrap().id(), Level::L8_5);
    // the fallback is held to an upper bound too
    assert!(s.clamp(Level::L1, Level::L7_2).select().is_none());
    // the greatest bitrate that can be asked for is within the top level
    let s = LevelSelector::new().max_bitrate(u32::MAX);
    assert_eq!(s.select().unwrap().id(), Level::L8_5);
}

#[test]
fn hevc_zero_workload_gets_lowest_level() {
    assert_eq!(LevelSelector::new().width(0).select().unwrap().id(), Level::L1);
    assert_eq!(LevelSelector::new().framerate(0).select().unwrap().id(), Level::L1);
}

#[test]
fn hevc_buffer_size_steps() {
    let l = LevelSpecification {
        id: Level::L1,
        max_luma_sample_rate: 0,
        max_luma_picture_size: 1000,
        max_bit_rate_main: 0,
        max_bit_rate_high: None,
    };
    assert_eq!(l.max_decoder_picture_buffer_size(0, 0), 16);
    assert_eq!(l.max_decoder_picture_buffer_size(250, 1), 16);
    assert_eq!(l.max_decoder_picture_buffer_size(251, 1), 12);
    assert_eq!(l.max_decoder_picture_buffer_size(500, 1), 12);
    assert_eq!(l.max_decoder_picture_buffer_size(501, 1), 8);
    assert_eq!(l.max_decoder_picture_buffer_size(750, 1), 8);
    assert_eq!(l.max_decoder_picture_buffer_size(751, 1), 6);
    assert_eq!(l.max_decoder_picture_buffer_size(u32::MAX, u32::MAX), 6);
    // the top level, whose picture size is the greatest number
    let top = get(Level::L8_5);
    assert_eq!(top.max_decoder_picture_buffer_size(65_535, 49_152), 8);
    assert_eq!(top.max_decoder_picture_buffer_size(65_536, 49_152), 6);
}

#[test]
fn hevc_buffer_size_is_monotonic() {
    let l = get(Level::L5);
    let mut last = 16;
    for height in [0u32, 100, 500, 1000, 1088, 1089, 2000, 2176, 2177, 3000, 3264, 3265, 5000] {
        let size = l.max_decoder_picture_buffer_size(2048, height);
        assert!(size <= last);
        assert!(size >= 6);
        last = size;
    }
    assert_eq!(last, 6);
}

#[test]
fn hevc_profile_multipliers() {
    assert_eq!(Profile::Main.bitrate_multiplier().quarters, 4);
    assert_eq!(Profile::Main10.bitrate_multiplier().quarters, 4);
    assert_eq!(Profile::Main12.bitrate_multiplier().quarters, 6);
    assert_eq!(Profile::Main422_10.bitrate_multiplier().quarters, 8);
    assert_eq!(Profile::Main444.bitrate_multiplier().quarters, 12);
    assert_eq!(Profile::Main444_16Intra.bitrate_multiplier().quarters, 32);
    assert_eq!(Profile::Main444_16IntraHighThroughput.bitrate_multiplier().quarters, 384);
    assert_eq!(pixel_multiplier(ChromaSampling::Cs422, Depth::Depth16).quarters, 24);
    assert_eq!(pixel_multiplier(ChromaSampling::Cs422, Depth::Depth12).quarters, 12);
    assert_eq!(pixel_multiplier(ChromaSampling::Cs420, Depth::Depth16).quarters, 12);
    assert_eq!(pixel_multiplier(ChromaSampling::Monochrome, Depth::Depth12).quarters, 6);
    assert_eq!(pixel_multiplier(ChromaSampling::Cs444, Depth::Depth12).quarters, 12);
}

#[test]
fn hevc_profile_constraints() {
    let c = ProfileConstraint::from(&Profile::Main);
    assert_eq!(c, ProfileConstraint::new(Depth::Depth8, ChromaSampling::Cs420, true));
    assert!(c.supports_chroma_format(ChromaSampling::Cs420));
    assert!(!c.supports_chroma_format(ChromaSampling::Cs422));
    assert!(c.supports_mono_chrome());
    assert!(c.supports_bit_depth(Depth::Depth8));
    assert!(!c.supports_bit_depth(Depth::Depth10));
    let c = ProfileConstraint::from(&Profile::Main422_10);
    assert_eq!(c.max_chroma_format(), ChromaSampling::Cs422);
    assert!(c.supports_bit_depth(Depth::Depth10));
    assert!(!c.supports_bit_depth(Depth::Depth12));
    assert!(!c.supports_chroma_format(ChromaSampling::Cs444));
    let c = Profile::Main444_16IntraHighThroughput.constraint();
    assert_eq!(c.max_chroma_format(), ChromaSampling::Cs444);
    assert!(c.supports_bit_depth(Depth::Depth16));
    assert_eq!(Profile::Main12.constraint().max_bit_depth, Depth::Depth12);
}

#[test]
fn hevc_level_table_is_the_table() {
    let table = level_table();
    assert_eq!(table.len(), LEVEL_COUNT);
    for i in 0..LEVEL_COUNT {
        assert_eq!(table[i], level_detail(i));
    }
    assert_eq!(*table.last().unwrap(), level_detail(LEVEL_COUNT - 1));
}
