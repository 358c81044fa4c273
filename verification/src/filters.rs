//! Filter planning: which blur and which unsharp mask an image receives,
//! decided from its content and the processing mode.

use vstd::prelude::*;
use crate::analysis::ContentClass;
use crate::analysis::ImageFeatures;
use crate::analysis::ENTROPY_ONE;
use crate::config::ProcessMode;
use crate::geometry::Scale;

verus! {

/// A non-negative rational `num / den`, kept exact.
#[derive(Clone, Copy, Debug, PartialEq, Eq, Structural)]
pub struct Ratio {
    pub num: u64,
    pub den: u64,
}

impl Ratio {
    pub open spec fn wf(&self) -> bool {
        self.den > 0
    }

    /// `self <= other`, by cross-multiplication.
    pub open spec fn le(&self, other: Ratio) -> bool {
        self.num as int * other.den as int <= other.num as int * self.den as int
    }

    /// The smaller of the two; `self` where they are equal.
    pub open spec fn min_spec(self, other: Ratio) -> Ratio {
        if self.le(other) {
            self
        } else {
            other
        }
    }

    /// The smaller of the two; `self` where they are equal.
    pub fn min(self, other: Ratio) -> (m: Ratio)
        ensures
            m == self.min_spec(other),
    {
        assert(self.num as int * other.den as int <= 0xffff_ffff_ffff_ffff * 0xffff_ffff_ffff_ffff)
            by (nonlinear_arith)
            requires
                self.num <= 0xffff_ffff_ffff_ffff,
                other.den <= 0xffff_ffff_ffff_ffff,
        ;
        assert(other.num as int * self.den as int <= 0xffff_ffff_ffff_ffff * 0xffff_ffff_ffff_ffff)
            by (nonlinear_arith)
            requires
                other.num <= 0xffff_ffff_ffff_ffff,
                self.den <= 0xffff_ffff_ffff_ffff,
        ;
        let left: u128 = self.num as u128 * other.den as u128;
        let right: u128 = other.num as u128 * self.den as u128;
        if left <= right {
            self
        } else {
            other
        }
    }
}

/// `k_num / k_den` times the scale factor.
pub open spec fn scaled_by(scale: Scale, k_num: u64, k_den: u64) -> Ratio {
    Ratio { num: (k_num * scale.num) as u64, den: (k_den * scale.den) as u64 }
}

/// Blur radius for portrait and landscape content: 0.5.
pub open spec fn light_blur() -> Ratio {
    Ratio { num: 1, den: 2 }
}

/// Blur radius for other content of high detail: 0.3.
pub open spec fn lighter_blur() -> Ratio {
    Ratio { num: 3, den: 10 }
}

/// Unclassified content counts as high in detail above 7.2 bits of
/// entropy.
pub open spec fn high_detail(entropy: u32) -> bool {
    5 * entropy > 36 * ENTROPY_ONE
}

/// The blur radius an image receives before sharpening, if any. Only the
/// `WeChat` mode denoises; graphic content is never blurred.
pub open spec fn denoise_plan(mode: ProcessMode, features: ImageFeatures) -> Option<Ratio> {
    if mode != ProcessMode::WeChat {
        None
    } else {
        match features.class_spec() {
            ContentClass::Graphic => None,
            ContentClass::Portrait => Some(light_blur()),
            ContentClass::Landscape => Some(light_blur()),
            ContentClass::Other => if high_detail(features.entropy) {
                Some(lighter_blur())
            } else {
                None
            },
        }
    }
}

/// Decides the blur radius an image receives before sharpening, if any.
pub fn plan_denoise(mode: ProcessMode, features: &ImageFeatures) -> (plan: Option<Ratio>)
    ensures
        plan == denoise_plan(mode, *features),
        plan matches Some(sigma) ==> sigma.wf(),
{
    match mode {
        ProcessMode::WeChat => match features.class() {
            ContentClass::Graphic => None,
            ContentClass::Portrait => Some(Ratio { num: 1, den: 2 }),
            ContentClass::Landscape => Some(Ratio { num: 1, den: 2 }),
            ContentClass::Other => if 5 * (features.entropy as u64) > 36 * (ENTROPY_ONE as u64) {
                Some(Ratio { num: 3, den: 10 })
            } else {
                None
            },
        },
        _ => None,
    }
}

/// An unsharp mask: blur radius and the threshold under which differences
/// are left alone.
#[derive(Clone, Copy, Debug, PartialEq, Eq, Structural)]
pub struct UnsharpMask {
    pub sigma: Ratio,
    pub threshold: i32,
}

/// Ten times the sharpness, in the unit of entropy. The sharpness is
/// `1.1 + (7.5 - entropy) / 10`, brought into `[1.0, 1.5]`; it falls as
/// entropy grows.
pub open spec fn tenfold_sharpness(entropy: u32) -> int {
    let raw = 37 * (ENTROPY_ONE / 2) - entropy;
    if raw < 10 * ENTROPY_ONE {
        10 * ENTROPY_ONE
    } else if raw > 15 * ENTROPY_ONE {
        15 * ENTROPY_ONE
    } else {
        raw
    }
}

/// Threshold of the entropy-driven mask: ten times the sharpness, rounded
/// down.
pub open spec fn adaptive_threshold(entropy: u32) -> int {
    tenfold_sharpness(entropy) / (ENTROPY_ONE as int)
}

/// The unsharp mask an image receives. `HD` always takes the strong fixed
/// mask; otherwise graphic content comes first, then portrait, and all
/// other content takes a mask driven by entropy and the scale factor.
pub open spec fn sharpen_plan(mode: ProcessMode, features: ImageFeatures, scale: Scale)
    -> UnsharpMask {
    if mode == ProcessMode::HD {
        UnsharpMask { sigma: Ratio { num: 9, den: 5 }, threshold: 13 }
    } else {
        match features.class_spec() {
            ContentClass::Graphic => UnsharpMask {
                sigma: scaled_by(scale, 2, 1).min_spec(Ratio { num: 2, den: 1 }),
                threshold: 15,
            },
            ContentClass::Portrait => UnsharpMask {
                sigma: scaled_by(scale, 3, 2).min_spec(Ratio { num: 6, den: 5 }),
                threshold: 12,
            },
            _ => UnsharpMask {
                sigma: scaled_by(scale, 1, 1).min_spec(Ratio { num: 3, den: 2 }),
                threshold: adaptive_threshold(features.entropy) as i32,
            },
        }
    }
}

/// Computes the threshold of the entropy-driven mask.
pub fn sharpness_threshold(entropy: u32) -> (threshold: i32)
    ensures
        threshold == adaptive_threshold(entropy),
        10 <= threshold <= 15,
{
    let one: i64 = ENTROPY_ONE as i64;
    let raw: i64 = 37 * (one / 2) - entropy as i64;
    let clamped: i64 = if raw < 10 * one {
        10 * one
    } else if raw > 15 * one {
        15 * one
    } else {
        raw
    };
    (clamped / one) as i32
}

/// Decides the unsharp mask an image receives.
pub fn plan_sharpen(mode: ProcessMode, features: &ImageFeatures, scale: Scale) -> (plan:
    UnsharpMask)
    requires
        scale.wf(),
    ensures
        plan == sharpen_plan(mode, *features, scale),
        plan.sigma.wf(),
        10 <= plan.threshold <= 15,
        plan.sigma.le(Ratio { num: 2, den: 1 }),
{
    let num: u64 = scale.num as u64;
    let den: u64 = scale.den as u64;
    match mode {
        ProcessMode::HD => UnsharpMask { sigma: Ratio { num: 9, den: 5 }, threshold: 13 },
        _ => match features.class() {
            ContentClass::Graphic => UnsharpMask {
                sigma: Ratio { num: 2 * num, den }.min(Ratio { num: 2, den: 1 }),
                threshold: 15,
            },
            ContentClass::Portrait => UnsharpMask {
                sigma: Ratio { num: 3 * num, den: 2 * den }.min(Ratio { num: 6, den: 5 }),
                threshold: 12,
            },
            _ => UnsharpMask {
                sigma: Ratio { num, den }.min(Ratio { num: 3, den: 2 }),
                threshold: sharpness_threshold(features.entropy),
            },
        },
    }
}

/// The threshold of the entropy-driven mask never rises with entropy.
pub proof fn lemma_threshold_decreasing(a: u32, b: u32)
    requires
        a <= b,
    ensures
        adaptive_threshold(a) >= adaptive_threshold(b),
        10 <= adaptive_threshold(a) <= 15,
{
}

} // verus!
