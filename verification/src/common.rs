//! What a codec profile allows: a greatest bit depth and a set of chroma
//! formats. The bitrate factor of a profile is kept as a whole number of
//! quarters, so that every scaled ceiling is an exact integer computation.
use vstd::prelude::*;
use yuv::color::ChromaSampling;
use yuv::color::Depth;

verus! {

/// The bit depth enumeration of the `yuv` crate, `yuv::color::Depth`. The
/// verifier reads its four variants, `Depth8`, `Depth10`, `Depth12` and
/// `Depth16`, from the crate itself; nothing more is claimed of the type here.
#[verifier::external_type_specification]
pub struct ExDepth(yuv::color::Depth);

/// The chroma subsampling enumeration of the `yuv` crate,
/// `yuv::color::ChromaSampling`. The verifier reads its four variants,
/// `Cs420`, `Cs422`, `Cs444` and `Monochrome`, from the crate itself; nothing
/// more is claimed of the type here.
#[verifier::external_type_specification]
pub struct ExChromaSampling(yuv::color::ChromaSampling);

/// Number of bits per sample that a depth stands for.
pub open spec fn depth_bits(depth: Depth) -> nat {
    match depth {
        Depth::Depth8 => 8,
        Depth::Depth10 => 10,
        Depth::Depth12 => 12,
        Depth::Depth16 => 16,
    }
}

/// Place of a chroma format in the containment chain 4:2:0, 4:2:2, 4:4:4.
/// Monochrome stands outside the chain, below all of it.
pub open spec fn chroma_rank(format: ChromaSampling) -> nat {
    match format {
        ChromaSampling::Monochrome => 0,
        ChromaSampling::Cs420 => 1,
        ChromaSampling::Cs422 => 2,
        ChromaSampling::Cs444 => 3,
    }
}

/// Calls `<=` of `yuv::color::Depth`, which the crate derives from the order of
/// the variants: `Depth8 < Depth10 < Depth12 < Depth16`. The contract claims
/// that this is the order of the bit counts.
#[verifier::external_body]
pub(crate) fn depth_at_most(a: Depth, b: Depth) -> (r: bool)
    ensures
        r == (depth_bits(a) <= depth_bits(b)),
{
    a <= b
}

/// Casts a `yuv::color::Depth` to its discriminant, which the crate declares
/// as the bit count: 8, 10, 12 and 16.
#[verifier::external_body]
pub(crate) fn depth_value(depth: Depth) -> (r: u32)
    ensures
        r == depth_bits(depth),
{
    depth as u32
}

/// Bits that one pixel takes at a chroma format and bit depth: three samples
/// for 4:4:4, two plus one for 4:2:2, one and a half for 4:2:0 (rounded down)
/// and one for monochrome.
pub open spec fn spec_bits_per_pixel(subsampling: ChromaSampling, bit_depth: Depth) -> nat {
    let d = depth_bits(bit_depth);
    match subsampling {
        ChromaSampling::Cs444 => 3 * d,
        ChromaSampling::Cs422 => 2 * d + d,
        ChromaSampling::Cs420 => d + d / 2,
        ChromaSampling::Monochrome => d,
    }
}

/// Bits that one pixel takes at a chroma format and bit depth.
pub fn bits_per_pixel(subsampling: ChromaSampling, bit_depth: Depth) -> (r: u32)
    ensures
        r == spec_bits_per_pixel(subsampling, bit_depth),
{
    let d: u32 = depth_value(bit_depth);
    match subsampling {
        ChromaSampling::Cs444 => 3 * d,
        ChromaSampling::Cs422 => 2 * d + d,
        ChromaSampling::Cs420 => d + d / 2,
        ChromaSampling::Monochrome => d,
    }
}

/// The capability envelope of a profile: the greatest bit depth and the set
/// of chroma formats that it allows, one flag per format.
#[derive(Debug, Clone, Copy, PartialEq, Eq)]
pub struct ProfileConstraint {
    pub max_bit_depth: Depth,
    pub cs420: bool,
    pub cs422: bool,
    pub cs444: bool,
    pub mono_chrome: bool,
}

/// The formats that a single ceiling format allows: every format of the chain
/// 4:2:0, 4:2:2, 4:4:4 up to the ceiling. Monochrome is in the set only when
/// it is allowed separately.
pub open spec fn ceiling_formats(max_chroma_format: ChromaSampling, mono_chrome: bool) -> Set<
    ChromaSampling,
> {
    Set::new(
        |f: ChromaSampling|
            match f {
                ChromaSampling::Monochrome => mono_chrome,
                _ => chroma_rank(f) <= chroma_rank(max_chroma_format),
            },
    )
}

impl ProfileConstraint {
    /// The set of chroma formats that the profile allows.
    pub open spec fn formats(self) -> Set<ChromaSampling> {
        Set::new(
            |f: ChromaSampling|
                match f {
                    ChromaSampling::Cs420 => self.cs420,
                    ChromaSampling::Cs422 => self.cs422,
                    ChromaSampling::Cs444 => self.cs444,
                    ChromaSampling::Monochrome => self.mono_chrome,
                },
        )
    }

    /// The highest format of the chain 4:2:0, 4:2:2, 4:4:4 that is allowed,
    /// and `Monochrome` where none of the three is.
    pub open spec fn spec_max_chroma_format(self) -> ChromaSampling {
        if self.cs444 {
            ChromaSampling::Cs444
        } else if self.cs422 {
            ChromaSampling::Cs422
        } else if self.cs420 {
            ChromaSampling::Cs420
        } else {
            ChromaSampling::Monochrome
        }
    }

    /// The constraint that a ceiling format gives: the formats of the chain
    /// up to the ceiling, and monochrome if `mono_chrome` says so.
    pub open spec fn spec_new(
        max_bit_depth: Depth,
        max_chroma_format: ChromaSampling,
        mono_chrome: bool,
    ) -> ProfileConstraint {
        ProfileConstraint {
            max_bit_depth,
            cs420: chroma_rank(max_chroma_format) >= 1,
            cs422: chroma_rank(max_chroma_format) >= 2,
            cs444: chroma_rank(max_chroma_format) >= 3,
            mono_chrome,
        }
    }

    /// A constraint from a ceiling format: the chroma formats up to the
    /// ceiling, and monochrome if `mono_chrome` says so.
    pub fn new(max_bit_depth: Depth, max_chroma_format: ChromaSampling, mono_chrome: bool) -> (r:
        Self)
        ensures
            r == Self::spec_new(max_bit_depth, max_chroma_format, mono_chrome),
            r.formats() == ceiling_formats(max_chroma_format, mono_chrome),
    {
        let (cs420, cs422, cs444) = match max_chroma_format {
            ChromaSampling::Monochrome => (false, false, false),
            ChromaSampling::Cs420 => (true, false, false),
            ChromaSampling::Cs422 => (true, true, false),
            ChromaSampling::Cs444 => (true, true, true),
        };
        let r = ProfileConstraint { max_bit_depth, cs420, cs422, cs444, mono_chrome };
        assert(r.formats() =~= ceiling_formats(max_chroma_format, mono_chrome));
        r
    }

    /// Whether the profile allows samples of this depth: any depth up to
    /// its greatest.
    pub fn supports_bit_depth(&self, bit_depth: Depth) -> (r: bool)
        ensures
            r == (depth_bits(bit_depth) <= depth_bits(self.max_bit_depth)),
    {
        depth_at_most(bit_depth, self.max_bit_depth)
    }

    /// Whether the profile allows this chroma format: whether the format is
    /// in its set.
    pub fn supports_chroma_format(&self, chroma_format: ChromaSampling) -> (r: bool)
        ensures
            r == self.formats().contains(chroma_format),
    {
        match chroma_format {
            ChromaSampling::Cs420 => self.cs420,
            ChromaSampling::Cs422 => self.cs422,
            ChromaSampling::Cs444 => self.cs444,
            ChromaSampling::Monochrome => self.supports_mono_chrome(),
        }
    }

    /// Whether the profile allows pictures without chroma.
    pub fn supports_mono_chrome(&self) -> (r: bool)
        ensures
            r == self.mono_chrome,
            r == self.formats().contains(ChromaSampling::Monochrome),
    {
        self.mono_chrome
    }

    /// The highest chroma format of the chain that the profile allows.
    pub fn max_chroma_format(&self) -> (r: ChromaSampling)
        ensures
            r == self.spec_max_chroma_format(),
    {
        if self.cs444 {
            ChromaSampling::Cs444
        } else if self.cs422 {
            ChromaSampling::Cs422
        } else if self.cs420 {
            ChromaSampling::Cs420
        } else {
            ChromaSampling::Monochrome
        }
    }
}

/// Under a constraint made from a ceiling, support follows the chain: a format
/// of the chain is allowed exactly when it is not above the ceiling, so what
/// allows 4:4:4 allows 4:2:2, and what allows 4:2:2 allows 4:2:0. Monochrome
/// follows from no ceiling: it is allowed exactly when the flag is set.
pub proof fn ceiling_containment(
    max_chroma_format: ChromaSampling,
    mono_chrome: bool,
    a: ChromaSampling,
    b: ChromaSampling,
)
    requires
        a != ChromaSampling::Monochrome,
        b != ChromaSampling::Monochrome,
        chroma_rank(a) <= chroma_rank(b),
    ensures
        ceiling_formats(max_chroma_format, mono_chrome).contains(b) ==> ceiling_formats(
            max_chroma_format,
            mono_chrome,
        ).contains(a),
        ceiling_formats(max_chroma_format, mono_chrome).contains(ChromaSampling::Monochrome)
            == mono_chrome,
{
}

/// A bitrate factor, counted in quarters: `quarters == 4` is the factor 1,
/// `quarters == 5` the factor 1.25.
#[derive(Debug, Clone, Copy, PartialEq, Eq, Structural)]
pub struct BitrateMultiplier {
    pub quarters: u32,
}

impl BitrateMultiplier {
    /// `base` times the factor, rounded down.
    pub open spec fn spec_scale(self, base: u32) -> nat {
        ((base as nat * self.quarters as nat) / 4) as nat
    }

    /// `base` times the factor, rounded down, and no more than `u32::MAX`.
    pub open spec fn spec_scale_saturating(self, base: u32) -> nat {
        if self.spec_scale(base) > u32::MAX {
            u32::MAX as nat
        } else {
            self.spec_scale(base)
        }
    }

    /// The product of this factor and a whole number.
    pub open spec fn spec_times(self, factor: u32) -> nat {
        self.quarters as nat * factor as nat
    }

    /// `base` times the factor, rounded down.
    pub fn scale(&self, base: u32) -> (r: u64)
        ensures
            r == self.spec_scale(base),
    {
        assert(base as nat * self.quarters as nat <= 0xffff_ffff * 0xffff_ffff) by (nonlinear_arith)
            requires
                base <= 0xffff_ffff,
                self.quarters <= 0xffff_ffff,
        ;
        (base as u64 * self.quarters as u64) / 4
    }

    /// `base` times the factor, rounded down, and no more than `u32::MAX`.
    pub fn scale_saturating(&self, base: u32) -> (r: u32)
        ensures
            r == self.spec_scale_saturating(base),
    {
        let wide: u64 = self.scale(base);
        if wide > u32::MAX as u64 {
            u32::MAX
        } else {
            wide as u32
        }
    }

    /// The product of this factor and a whole number.
    pub fn times(&self, factor: u32) -> (r: BitrateMultiplier)
        requires
            self.spec_times(factor) <= u32::MAX,
        ensures
            r.quarters == self.spec_times(factor),
    {
        BitrateMultiplier { quarters: self.quarters * factor }
    }
}

/// Scaling by a factor keeps the order of the base values, rounded or
/// saturated.
pub proof fn scale_monotonic(m: BitrateMultiplier, a: u32, b: u32)
    requires
        a <= b,
    ensures
        m.spec_scale(a) <= m.spec_scale(b),
        m.spec_scale_saturating(a) <= m.spec_scale_saturating(b),
{
    assert(a as nat * m.quarters as nat <= b as nat * m.quarters as nat) by (nonlinear_arith)
        requires
            a <= b,
    ;
}

} // verus!
