use video_levels::common::bits_per_pixel;
use video_levels::common::BitrateMultiplier;
use video_levels::common::ProfileConstraint;
use yuv::color::ChromaSampling;
use yuv::color::Depth;

const DEPTHS: [Depth; 4] = [Depth::Depth8, Depth::Depth10, Depth::Depth12, Depth::Depth16];

#[test]
fn depth_support_follows_the_bit_count() {
    for (i, max) in DEPTHS.iter().enumerate() {
        let c = ProfileConstraint::new(*max, ChromaSampling::Cs420, false);
        for (j, depth) in DEPTHS.iter().enumerate() {
            assert_eq!(c.supports_bit_depth(*depth), j <= i);
        }
    }
}

#[test]
fn ceiling_gives_the_chain() {
    let c = ProfileConstraint::new(Depth::Depth8, ChromaSampling::Cs420, false);
    assert!(c.supports_chroma_format(ChromaSampling::Cs420));
    assert!(!c.supports_chroma_format(ChromaSampling::Cs422));
    assert!(!c.supports_chroma_format(ChromaSampling::Cs444));
    assert!(!c.supports_chroma_format(ChromaSampling::Monochrome));
    assert_eq!(c.max_chroma_format(), ChromaSampling::Cs420);

    let c = ProfileConstraint::new(Depth::Depth8, ChromaSampling::Cs422, true);
    assert!(c.supports_chroma_format(ChromaSampling::Cs420));
    assert!(c.supports_chroma_format(ChromaSampling::Cs422));
    assert!(!c.supports_chroma_format(ChromaSampling::Cs444));
    assert!(c.supports_chroma_format(ChromaSampling::Monochrome));
    assert_eq!(c.max_chroma_format(), ChromaSampling::Cs422);

    let c = ProfileConstraint::new(Depth::Depth8, ChromaSampling::Cs444, false);
    assert!(c.supports_chroma_format(ChromaSampling::Cs420));
    assert!(c.supports_chroma_format(ChromaSampling::Cs422));
    assert!(c.supports_chroma_format(ChromaSampling::Cs444));
    // monochrome does not follow from a ceiling
    assert!(!c.supports_chroma_format(ChromaSampling::Monochrome));
    assert!(!c.supports_mono_chrome());
    assert_eq!(c.max_chroma_format(), ChromaSampling::Cs444);
}

#[test]
fn monochrome_ceiling_allows_no_chroma() {
    let c = ProfileConstraint::new(Depth::Depth12, ChromaSampling::Monochrome, true);
    assert!(c.supports_chroma_format(ChromaSampling::Monochrome));
    assert!(c.supports_mono_chrome());
    assert!(!c.supports_chroma_format(ChromaSampling::Cs420));
    assert!(!c.supports_chroma_format(ChromaSampling::Cs444));
    assert_eq!(c.max_chroma_format(), ChromaSampling::Monochrome);
    assert_eq!(c.max_bit_depth, Depth::Depth12);
    let c = ProfileConstraint::new(Depth::Depth12, ChromaSampling::Monochrome, false);
    assert!(!c.supports_chroma_format(ChromaSampling::Monochrome));
}

#[test]
fn explicit_set_of_formats() {
    let c = ProfileConstraint {
        max_bit_depth: Depth::Depth10,
        cs420: false,
        cs422: true,
        cs444: false,
        mono_chrome: false,
    };
    assert!(c.supports_chroma_format(ChromaSampling::Cs422));
    assert!(!c.supports_chroma_format(ChromaSampling::Cs420));
    assert_eq!(c.max_chroma_format(), ChromaSampling::Cs422);
}

#[test]
fn bits_per_pixel_values() {
    assert_eq!(bits_per_pixel(ChromaSampling::Cs444, Depth::Depth8), 24);
    assert_eq!(bits_per_pixel(ChromaSampling::Cs444, Depth::Depth10), 30);
    assert_eq!(bits_per_pixel(ChromaSampling::Cs422, Depth::Depth12), 36);
    assert_eq!(bits_per_pixel(ChromaSampling::Cs420, Depth::Depth8), 12);
    assert_eq!(bits_per_pixel(ChromaSampling::Cs420, Depth::Depth10), 15);
    assert_eq!(bits_per_pixel(ChromaSampling::Cs420, Depth::Depth16), 24);
    assert_eq!(bits_per_pixel(ChromaSampling::Monochrome, Depth::Depth8), 8);
    assert_eq!(bits_per_pixel(ChromaSampling::Monochrome, Depth::Depth16), 16);
}

#[test]
fn multiplier_scales_and_rounds_down() {
    let one = BitrateMultiplier { quarters: 4 };
    assert_eq!(one.scale(0), 0);
    assert_eq!(one.scale(12_345), 12_345);
    assert_eq!(one.scale(u32::MAX), 4_294_967_295);
    let m = BitrateMultiplier { quarters: 5 };
    assert_eq!(m.scale(4), 5);
    assert_eq!(m.scale(7), 8);
    assert_eq!(m.scale(u32::MAX), 5_368_709_118);
    let zero = BitrateMultiplier { quarters: 0 };
    assert_eq!(zero.scale(1000), 0);
    let most = BitrateMultiplier { quarters: u32::MAX };
    assert_eq!(most.scale(u32::MAX), 4_611_686_016_279_904_256);
}

#[test]
fn multiplier_saturates() {
    let m = BitrateMultiplier { quarters: 6 };
    assert_eq!(m.scale_saturating(60_000), 90_000);
    assert_eq!(m.scale_saturating(3), 4);
    assert_eq!(m.scale_saturating(2_863_311_530), 4_294_967_295);
    assert_eq!(m.scale_saturating(2_863_311_529), 4_294_967_293);
    assert_eq!(m.scale_saturating(u32::MAX), u32::MAX);
    let half = BitrateMultiplier { quarters: 2 };
    assert_eq!(half.scale_saturating(u32::MAX), 2_147_483_647);
}

#[test]
fn multiplier_times() {
    let m = BitrateMultiplier { quarters: 32 };
    assert_eq!(m.times(12), BitrateMultiplier { quarters: 384 });
    assert_eq!(m.times(1), m);
    assert_eq!(m.times(0).quarters, 0);
}
