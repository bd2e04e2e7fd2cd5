use video_levels::common::ProfileConstraint;
use video_levels::h264::frame_mbs;
use video_levels::h264::get;
use video_levels::h264::level_detail;
use video_levels::h264::level_table;
use video_levels::h264::Level;
use video_levels::h264::LevelSelector;
use video_levels::h264::LevelSpecification;
use video_levels::h264::Profile;
use video_levels::h264::LEVEL_COUNT;
use yuv::color::ChromaSampling;
use yuv::color::Depth;

/// Whole pictures per second for a rate that may be fractional.
fn whole_rate(rate: f32) -> u64 {
    rate.ceil() as u64
}

const H264_LEVELS: [Level; 20] = [
    Level::L1,
    Level::L1b,
    Level::L1_1,
    Level::L1_2,
    Level::L1_3,
    Level::L2,
    Level::L2_1,
    Level::L2_2,
    Level::L3,
    Level::L3_1,
    Level::L3_2,
    Level::L4,
    Level::L4_1,
    Level::L4_2,
    Level::L5,
    Level::L5_1,
    Level::L5_2,
    Level::L6,
    Level::L6_1,
    Level::L6_2,
];

#[test]
fn level_idc() {
    assert_eq!(Level::L3_1, Level::from(31));
    assert_eq!(Level::L1b, Level::from(9));
    assert_eq!(Level::L1, Level::from(10));
    assert_eq!(Level::L4_2, Level::from(42));
    assert_eq!(Level::L6_2, Level::from(62));
    // Unknown values fall back to L6.2
    assert_eq!(Level::L6_2, Level::from(99));
}

#[test]
fn h264_max_bitrate() {
    let l = get(Level::L5_1);
    assert_eq!(l.id(), Level::L5_1);
    // Base bitrate for Main profile: 240,000 kbit/s
    assert_eq!(l.max_bit_rate(Profile::Main), 240_000);
    // High: 240,000 * 1.25 = 300,000
    assert_eq!(l.max_bit_rate(Profile::High), 300_000);
    // High10: 240,000 * 3.0 = 720,000
    assert_eq!(l.max_bit_rate(Profile::High10), 720_000);
    // High422: 240,000 * 4.0 = 960,000
    assert_eq!(l.max_bit_rate(Profile::High422), 960_000);
}

#[test]
fn max_dpb_frames() {
    // L4, 1920x1080: ceil(1920/16)*ceil(1080/16) = 120*68 = 8160
    // MaxDpbMbs=32768, 32768/8160 = 4
    let l = get(Level::L4);
    assert_eq!(l.max_dpb_frames(1920, 1080), 4);

    // L4, 1280x720: ceil(1280/16)*ceil(720/16) = 80*45 = 3600
    // MaxDpbMbs=32768, 32768/3600 = 9
    assert_eq!(l.max_dpb_frames(1280, 720), 9);

    // L5.1, 1920x1080: MaxDpbMbs=184320, 184320/8160 = 22 -> capped at 16
    let l = get(Level::L5_1);
    assert_eq!(l.max_dpb_frames(1920, 1080), 16);
}

#[test]
fn h264_select_base_cases() {
    // 1280x720@30 -> L3.1
    // frame_mbs = 80*45 = 3600, mb_rate = 3600*30 = 108000
    // L3.1: MaxMBPS=108000, MaxFS=3600 -> fits
    assert_eq!(
        LevelSelector::new()
            .width(1280)
            .height(720)
            .framerate(whole_rate(30.0))
            .profile(Profile::Main)
            .select()
            .unwrap()
            .id(),
        Level::L3_1
    );

    // 1920x1080@30 -> L4
    // frame_mbs = 120*68 = 8160, mb_rate = 8160*30 = 244800
    // L4: MaxMBPS=245760, MaxFS=8192 -> fits
    assert_eq!(
        LevelSelector::new()
            .width(1920)
            .height(1080)
            .framerate(whole_rate(30.0))
            .profile(Profile::Main)
            .select()
            .unwrap()
            .id(),
        Level::L4
    );

    // 1920x1080@60 -> L4.2
    // frame_mbs = 8160, mb_rate = 8160*60 = 489600
    // L4.2: MaxMBPS=522240, MaxFS=8704 -> fits
    assert_eq!(
        LevelSelector::new()
            .width(1920)
            .height(1080)
            .framerate(whole_rate(60.0))
            .profile(Profile::Main)
            .select()
            .unwrap()
            .id(),
        Level::L4_2
    );

    // 3840x2160@30 -> L5.1
    // frame_mbs = 240*135 = 32400, mb_rate = 32400*30 = 972000
    // L5.1: MaxMBPS=983040, MaxFS=36864 -> fits
    assert_eq!(
        LevelSelector::new()
            .width(3840)
            .height(2160)
            .framerate(whole_rate(30.0))
            .profile(Profile::Main)
            .select()
            .unwrap()
            .id(),
        Level::L5_1
    );
}

#[test]
fn h264_select_clamp_cases() {
    // Min clamp forces higher level
    // 1280x720@30 would normally select L3.1, but min clamp to L5 forces L5
    assert_eq!(
        LevelSelector::new()
            .width(1280)
            .height(720)
            .framerate(whole_rate(30.0))
            .profile(Profile::Main)
            .clamp(Level::L5, Level::L6_2)
            .select()
            .unwrap()
            .id(),
        Level::L5
    );

    // Max clamp returns None when exceeded
    // 1920x1080@30 selects L4, but max clamp to L3.2 means it exceeds
    assert!(LevelSelector::new()
        .width(1920)
        .height(1080)
        .framerate(whole_rate(30.0))
        .profile(Profile::Main)
        .clamp(Level::L1, Level::L3_2)
        .select()
        .is_none());
}

#[test]
fn h264_table_is_ordered() {
    assert_eq!(LEVEL_COUNT, 20);
    for i in 0..LEVEL_COUNT {
        let l = level_detail(i);
        assert_eq!(l.id(), H264_LEVELS[i]);
        assert_eq!(l.id().rank(), i);
        if i + 1 < LEVEL_COUNT {
            let next = level_detail(i + 1);
            assert!(l.max_macroblock_rate() <= next.max_macroblock_rate());
            assert!(l.max_frame_size_mbs() <= next.max_frame_size_mbs());
            assert!(l.max_bit_rate(Profile::Main) <= next.max_bit_rate(Profile::Main));
            assert!(l.max_dpb_mbs() <= next.max_dpb_mbs());
            assert!(l.id() < next.id());
        }
    }
}

#[test]
fn h264_table_values() {
    let l = level_detail(1);
    assert_eq!(l.id(), Level::L1b);
    assert_eq!(l.max_macroblock_rate(), 1_485);
    assert_eq!(l.max_frame_size_mbs(), 99);
    assert_eq!(l.max_bit_rate, 128);
    assert_eq!(l.max_dpb_mbs(), 396);
    let l = get(Level::L6_2);
    assert_eq!(l.max_macroblock_rate(), 16_711_680);
    assert_eq!(l.max_frame_size_mbs(), 139_264);
    assert_eq!(l.max_bit_rate, 800_000);
    assert_eq!(l.max_dpb_mbs(), 696_320);
}

#[test]
fn h264_get_gives_the_level() {
    for level in H264_LEVELS {
        assert_eq!(get(level).id(), level);
        assert_eq!(get(level), level_detail(level.rank()));
    }
}

#[test]
fn h264_wire_value_round_trip() {
    for level in H264_LEVELS {
        assert_eq!(Level::from(level.usize()), level);
    }
    assert_eq!(Level::L1b.usize(), 9);
    assert_eq!(Level::L1.usize(), 10);
    assert_eq!(Level::L6_2.usize(), 62);
}

#[test]
fn h264_unknown_wire_value_is_top() {
    assert_eq!(Level::from(0), Level::L6_2);
    assert_eq!(Level::from(14), Level::L6_2);
    assert_eq!(Level::from(63), Level::L6_2);
    assert_eq!(Level::from(usize::MAX), Level::L6_2);
}

#[test]
fn h264_level_names() {
    assert_eq!(Level::L1.name(), "1");
    assert_eq!(Level::L1b.name(), "1b");
    assert_eq!(Level::L4_2.name(), "4.2");
    assert_eq!(Level::L6_2.name(), "6.2");
}

#[test]
fn h264_default_selection() {
    let s = LevelSelector::default();
    assert_eq!(s, LevelSelector::new());
    assert_eq!(s.width, 1920);
    assert_eq!(s.height, 1080);
    assert_eq!(s.framerate, 30);
    assert_eq!(s.profile, Profile::Main);
    assert_eq!(s.min_level, None);
    assert_eq!(s.max_level, None);
    assert_eq!(s.max_bitrate, None);
    assert_eq!(s.select().unwrap().id(), Level::L4);
}

#[test]
fn h264_frame_mbs_rounds_up() {
    assert_eq!(frame_mbs(0, 0), 0);
    assert_eq!(frame_mbs(1, 1), 1);
    assert_eq!(frame_mbs(16, 16), 1);
    assert_eq!(frame_mbs(17, 16), 2);
    assert_eq!(frame_mbs(1920, 1080), 8160);
    assert_eq!(frame_mbs(u32::MAX, u32::MAX), 268_435_456 * 268_435_456);
}

#[test]
fn h264_frame_size_decides_too() {
    // 4096 x 2304 at one picture per second: few macroblocks per second,
    // but 36864 macroblocks per frame, which level 5.1 is the first to hold
    let s = LevelSelector::new().width(4096).height(2304).framerate(1);
    assert_eq!(s.select().unwrap().id(), Level::L5_1);
    let s = LevelSelector::new().width(4097).height(2304).framerate(1);
    assert_eq!(s.select().unwrap().id(), Level::L6);
}

#[test]
fn h264_bitrate_decides() {
    let s = LevelSelector::new().width(1280).height(720).max_bitrate(14_000);
    assert_eq!(s.select().unwrap().id(), Level::L3_1);
    let s = s.max_bitrate(14_001);
    assert_eq!(s.select().unwrap().id(), Level::L3_2);
    // the High profile has 1.25 times the bitrate: 14000 * 1.25 = 17500
    let s = s.profile(Profile::High).max_bitrate(17_500);
    assert_eq!(s.select().unwrap().id(), Level::L3_1);
    let s = s.max_bitrate(17_501);
    assert_eq!(s.select().unwrap().id(), Level::L3_2);
}

#[test]
fn h264_unreachable_bitrate_gives_top() {
    let s = LevelSelector::new().max_bitrate(800_001);
    assert_eq!(s.select().unwrap().id(), Level::L6_2);
    let s = LevelSelector::new().max_bitrate(800_000);
    assert_eq!(s.select().unwrap().id(), Level::L6_2);
    let s = LevelSelector::new().profile(Profile::High444).max_bitrate(3_200_001);
    assert_eq!(s.select().unwrap().id(), Level::L6_2);
    // with an upper bound below the top there is no level
    let s = LevelSelector::new().max_bitrate(800_001).clamp(Level::L1, Level::L6_1);
    assert!(s.select().is_none());
    let s = LevelSelector::new().max_bitrate(800_001).clamp(Level::L1, Level::L6_2);
    assert_eq!(s.select().unwrap().id(), Level::L6_2);
}

#[test]
fn h264_beyond_every_level_gives_top() {
    let s = LevelSelector::new().width(u32::MAX).height(u32::MAX).framerate(u64::MAX);
    assert_eq!(s.select().unwrap().id(), Level::L6_2);
    let s = LevelSelector::new().width(7680).height(4320).framerate(whole_rate(240.0));
    assert_eq!(s.select().unwrap().id(), Level::L6_2);
    assert!(s.clamp(Level::L4, Level::L5_2).select().is_none());
}

#[test]
fn h264_floor_and_ceiling() {
    let s = LevelSelector::new().width(1280).height(720);
    assert_eq!(s.clamp(Level::L1, Level::L6_2).select().unwrap().id(), Level::L3_1);
    assert_eq!(s.clamp(Level::L3_1, Level::L3_1).select().unwrap().id(), Level::L3_1);
    assert_eq!(s.clamp(Level::L4_1, Level::L5).select().unwrap().id(), Level::L4_1);
    assert!(s.clamp(Level::L1, Level::L3).select().is_none());
    // a floor above the ceiling leaves nothing
    assert!(s.clamp(Level::L5, Level::L4).select().is_none());
}

#[test]
fn h264_higher_rate_never_lowers_the_level() {
    let mut last = Level::L1;
    for rate in [0u64, 1, 15, 24, 30, 50, 60, 120, 240, 1000] {
        let chosen = LevelSelector::new().framerate(rate).select().unwrap().id();
        assert!(chosen >= last);
        last = chosen;
    }
    assert_eq!(last, Level::L6_1);
}

#[test]
fn h264_dpb_frames_edges() {
    let l = LevelSpecification {
        id: Level::L1,
        max_macroblock_rate: 0,
        max_frame_size_mbs: 0,
        max_bit_rate: 0,
        max_dpb_mbs: 100,
    };
    assert_eq!(l.max_dpb_frames(0, 0), 16);
    assert_eq!(l.max_dpb_frames(0, 1080), 16);
    assert_eq!(l.max_dpb_frames(16, 16), 16);
    assert_eq!(l.max_dpb_frames(16 * 6, 16), 16);
    assert_eq!(l.max_dpb_frames(16 * 7, 16), 14);
    assert_eq!(l.max_dpb_frames(160, 160), 1);
    assert_eq!(l.max_dpb_frames(161, 160), 0);
    assert_eq!(l.max_dpb_frames(u32::MAX, u32::MAX), 0);
}

#[test]
fn h264_dpb_frames_are_monotonic() {
    let l = get(Level::L4);
    let mut last = 16;
    for height in [0u32, 16, 256, 272, 288, 540, 720, 1080, 2160, 4320] {
        let frames = l.max_dpb_frames(1920, height);
        assert!(frames <= last);
        last = frames;
    }
    assert_eq!(last, 1);
}

#[test]
fn h264_profile_multipliers() {
    assert_eq!(Profile::Baseline.bitrate_multiplier().quarters, 4);
    assert_eq!(Profile::Main.bitrate_multiplier().quarters, 4);
    assert_eq!(Profile::Extended.bitrate_multiplier().quarters, 4);
    assert_eq!(Profile::High.bitrate_multiplier().quarters, 5);
    assert_eq!(Profile::High10.bitrate_multiplier().quarters, 12);
    assert_eq!(Profile::High10Intra.bitrate_multiplier().quarters, 12);
    assert_eq!(Profile::High422.bitrate_multiplier().quarters, 16);
    assert_eq!(Profile::High422Intra.bitrate_multiplier().quarters, 16);
    assert_eq!(Profile::High444.bitrate_multiplier().quarters, 16);
    assert_eq!(Profile::High444Intra.bitrate_multiplier().quarters, 16);
    assert_eq!(Profile::CAVLC444Intra.bitrate_multiplier().quarters, 16);
    // 1.25 times an odd figure is rounded down
    assert_eq!(level_detail(0).max_bit_rate(Profile::High), 80);
    let l = LevelSpecification {
        id: Level::L1,
        max_macroblock_rate: 0,
        max_frame_size_mbs: 0,
        max_bit_rate: 3,
        max_dpb_mbs: 0,
    };
    assert_eq!(l.max_bit_rate(Profile::High), 3);
    let l = LevelSpecification { max_bit_rate: u32::MAX, ..l };
    assert_eq!(l.max_bit_rate(Profile::High444), 4 * 4_294_967_295);
}

#[test]
fn h264_profile_constraints() {
    let c = ProfileConstraint::from(&Profile::Baseline);
    assert!(c.supports_chroma_format(ChromaSampling::Cs420));
    assert!(!c.supports_chroma_format(ChromaSampling::Monochrome));
    assert!(!c.supports_mono_chrome());
    assert!(!c.supports_chroma_format(ChromaSampling::Cs422));
    assert!(c.supports_bit_depth(Depth::Depth8));
    assert!(!c.supports_bit_depth(Depth::Depth10));
    let c = ProfileConstraint::from(&Profile::High);
    assert!(c.supports_chroma_format(ChromaSampling::Monochrome));
    assert!(!c.supports_chroma_format(ChromaSampling::Cs422));
    let c = ProfileConstraint::from(&Profile::High10Intra);
    assert!(c.supports_bit_depth(Depth::Depth10));
    assert!(!c.supports_bit_depth(Depth::Depth12));
    let c = ProfileConstraint::from(&Profile::High422);
    assert!(c.supports_chroma_format(ChromaSampling::Cs422));
    assert!(!c.supports_chroma_format(ChromaSampling::Cs444));
    let c = Profile::CAVLC444Intra.constraint();
    assert!(c.supports_chroma_format(ChromaSampling::Cs444));
    assert!(c.supports_bit_depth(Depth::Depth16));
}

#[test]
fn h264_level_table_is_the_table() {
    let table = level_table();
    assert_eq!(table.len(), LEVEL_COUNT);
    for i in 0..LEVEL_COUNT {
        assert_eq!(table[i], level_detail(i));
    }
    assert_eq!(*table.last().unwrap(), level_detail(LEVEL_COUNT - 1));
}
