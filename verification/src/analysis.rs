//! Content analysis: luminance statistics of a proxy image and the
//! rule-based classification drawn from them.

use vstd::prelude::*;
use crate::buffer::RgbaBuffer;

verus! {

/// Number of luminance levels.
pub const LEVELS: usize = 256;

/// Luminance of an RGB pixel: the weighted sum
/// `(2126 r + 7152 g + 722 b) / 10000`, rounded down.
pub open spec fn luma_of(r: u8, g: u8, b: u8) -> u8 {
    ((2126 * r + 7152 * g + 722 * b) / 10000) as u8
}

/// Luminance of an RGB pixel.
pub fn luma(r: u8, g: u8, b: u8) -> (l: u8)
    ensures
        l == luma_of(r, g, b),
{
    let sum: u32 = 2126 * (r as u32) + 7152 * (g as u32) + 722 * (b as u32);
    (sum / 10000) as u8
}

/// The luminance of each pixel of an RGBA sample sequence.
pub open spec fn gray_of(rgba: Seq<u8>) -> Seq<u8> {
    Seq::new(
        (rgba.len() / 4) as nat,
        |i: int| luma_of(rgba[4 * i], rgba[4 * i + 1], rgba[4 * i + 2]),
    )
}

/// Converts an RGBA image to single-channel luminance; alpha is ignored.
pub fn to_luma(image: &RgbaBuffer) -> (gray: Vec<u8>)
    ensures
        gray@ == gray_of(image.samples()),
{
    let data = image.data();
    let len: usize = data.len();
    let n: usize = len / 4;
    let mut gray: Vec<u8> = Vec::new();
    let mut p: usize = 0;
    while p < n
        invariant
            p <= n,
            len == data@.len(),
            n == len / 4,
            gray@.len() == p,
            forall|i: int|
                0 <= i < p ==> gray@[i] == luma_of(data@[4 * i], data@[4 * i + 1], data@[4 * i + 2]),
        decreases n - p,
    {
        let base: usize = p * 4;
        gray.push(luma(data[base], data[base + 1], data[base + 2]));
        p = p + 1;
    }
    assert(gray@ =~= gray_of(data@));
    gray
}

/// How often `level` occurs in `samples`.
pub open spec fn count_of(samples: Seq<u8>, level: u8) -> nat
    decreases samples.len(),
{
    if samples.len() == 0 {
        0
    } else {
        count_of(samples.drop_last(), level) + if samples.last() == level {
            1nat
        } else {
            0nat
        }
    }
}

/// The darkest sample; 255 where there is none.
pub open spec fn min_of(samples: Seq<u8>) -> u8
    decreases samples.len(),
{
    if samples.len() == 0 {
        255
    } else {
        let rest = min_of(samples.drop_last());
        if samples.last() < rest {
            samples.last()
        } else {
            rest
        }
    }
}

/// The lightest sample; 0 where there is none.
pub open spec fn max_of(samples: Seq<u8>) -> u8
    decreases samples.len(),
{
    if samples.len() == 0 {
        0
    } else {
        let rest = max_of(samples.drop_last());
        if samples.last() > rest {
            samples.last()
        } else {
            rest
        }
    }
}

/// Distance between the lightest and the darkest level, zero where there is
/// no sample. Contrast is this distance over 255.
pub open spec fn spread_of(min: u8, max: u8) -> u8 {
    if max >= min {
        (max - min) as u8
    } else {
        0
    }
}

/// Luminance statistics of an image.
#[derive(Debug)]
pub struct LumaStats {
    /// Number of samples at each of the 256 levels.
    pub histogram: Vec<u64>,
    /// Darkest level, 255 for an empty image.
    pub min: u8,
    /// Lightest level, 0 for an empty image.
    pub max: u8,
    /// Number of samples.
    pub total: u64,
}

impl LumaStats {
    /// The statistics of `samples`, entry by entry.
    pub open spec fn describes(&self, samples: Seq<u8>) -> bool {
        &&& self.histogram@.len() == LEVELS
        &&& forall|v: u8| #[trigger] self.histogram@[v as int] == count_of(samples, v)
        &&& self.min == min_of(samples)
        &&& self.max == max_of(samples)
        &&& self.total == samples.len()
    }

    pub open spec fn spread_spec(&self) -> u8 {
        spread_of(self.min, self.max)
    }

    /// Distance between the lightest and the darkest level.
    pub fn spread(&self) -> (s: u8)
        ensures
            s == self.spread_spec(),
    {
        if self.max >= self.min {
            self.max - self.min
        } else {
            0
        }
    }
}

/// No level occurs more often than there are samples.
pub proof fn lemma_count_le_len(samples: Seq<u8>, level: u8)
    ensures
        count_of(samples, level) <= samples.len(),
    decreases samples.len(),
{
    if samples.len() > 0 {
        lemma_count_le_len(samples.drop_last(), level);
    }
}

/// The extremes of a non-empty image are ordered, and every sample lies
/// between them.
pub proof fn lemma_extremes(samples: Seq<u8>, i: int)
    requires
        0 <= i < samples.len(),
    ensures
        min_of(samples) <= samples[i] <= max_of(samples),
    decreases samples.len(),
{
    if i < samples.len() - 1 {
        lemma_extremes(samples.drop_last(), i);
    }
}

/// Builds the 256-bin histogram of `samples` and finds their extremes.
pub fn luma_statistics(samples: &Vec<u8>) -> (stats: LumaStats)
    ensures
        stats.describes(samples@),
{
    let mut histogram: Vec<u64> = Vec::new();
    let mut k: usize = 0;
    while k < LEVELS
        invariant
            k <= LEVELS,
            histogram@.len() == k,
            forall|j: int| 0 <= j < k ==> histogram@[j] == 0,
        decreases LEVELS - k,
    {
        histogram.push(0);
        k = k + 1;
    }
    let mut min: u8 = 255;
    let mut max: u8 = 0;
    let n: usize = samples.len();
    let mut i: usize = 0;
    assert(samples@.take(0) =~= Seq::<u8>::empty());
    while i < n
        invariant
            i <= n,
            n == samples@.len(),
            histogram@.len() == LEVELS,
            forall|v: u8| #[trigger] histogram@[v as int] == count_of(samples@.take(i as int), v),
            min == min_of(samples@.take(i as int)),
            max == max_of(samples@.take(i as int)),
        decreases n - i,
    {
        let v: u8 = samples[i];
        let ghost before = samples@.take(i as int);
        let ghost after = samples@.take(i + 1);
        proof {
            assert(after.drop_last() =~= before);
            assert(after.last() == v);
            lemma_count_le_len(before, v);
        }
        let old_count: u64 = histogram[v as usize];
        histogram.set(v as usize, old_count + 1);
        if v > max {
            max = v;
        }
        if v < min {
            min = v;
        }
        i = i + 1;
        proof {
            assert forall|u: u8| #[trigger] histogram@[u as int] == count_of(after, u) by {
                if u != v {
                    assert(histogram@[u as int] == count_of(before, u));
                }
            }
        }
    }
    assert(samples@.take(n as int) =~= samples@);
    LumaStats { histogram, min, max, total: n as u64 }
}

/// One bit of entropy in the fixed-point unit in which entropy is carried:
/// 22 binary places, so that an entropy of `e` bits is the number
/// `e * ENTROPY_ONE`. Every 32-bit float from 2 up is a whole number of
/// these units.
pub const ENTROPY_ONE: u32 = 4194304;

/// What the analysis of one image yields. Entropy is in units of
/// `1 / ENTROPY_ONE` bit.
#[derive(Clone, Copy, Debug, PartialEq, Eq, Structural)]
pub struct ImageFeatures {
    pub entropy: u32,
    pub is_graphic: bool,
    pub is_portrait: bool,
    pub is_landscape: bool,
}

/// Flat-colour content: entropy under 6.5 bits and contrast over 0.4.
pub open spec fn graphic_rule(entropy: u32, spread: u8) -> bool {
    2 * entropy < 13 * ENTROPY_ONE && 10 * spread > 4 * 255
}

/// Portrait-like content: entropy in [6.5, 7.5] bits and contrast in
/// [0.2, 0.6].
pub open spec fn portrait_rule(entropy: u32, spread: u8) -> bool {
    13 * ENTROPY_ONE <= 2 * entropy <= 15 * ENTROPY_ONE && 2 * 255 <= 10 * spread <= 6 * 255
}

/// Landscape-like content: entropy over 7.0 bits and contrast under 0.4.
pub open spec fn landscape_rule(entropy: u32, spread: u8) -> bool {
    entropy > 7 * ENTROPY_ONE && 10 * spread < 4 * 255
}

/// The features that follow from an entropy and a luminance spread.
pub open spec fn features_of(entropy: u32, spread: u8) -> ImageFeatures {
    ImageFeatures {
        entropy,
        is_graphic: graphic_rule(entropy, spread),
        is_portrait: portrait_rule(entropy, spread),
        is_landscape: landscape_rule(entropy, spread),
    }
}

/// The kind of content, decided in a fixed order of precedence.
#[derive(Clone, Copy, Debug, PartialEq, Eq, Structural)]
pub enum ContentClass {
    Graphic,
    Portrait,
    Landscape,
    Other,
}

impl ImageFeatures {
    /// The class of the content: graphic before portrait before landscape.
    pub open spec fn class_spec(&self) -> ContentClass {
        if self.is_graphic {
            ContentClass::Graphic
        } else if self.is_portrait {
            ContentClass::Portrait
        } else if self.is_landscape {
            ContentClass::Landscape
        } else {
            ContentClass::Other
        }
    }

    /// The class of the content. The rules overlap, so the order decides.
    pub fn class(&self) -> (class: ContentClass)
        ensures
            class == self.class_spec(),
    {
        if self.is_graphic {
            ContentClass::Graphic
        } else if self.is_portrait {
            ContentClass::Portrait
        } else if self.is_landscape {
            ContentClass::Landscape
        } else {
            ContentClass::Other
        }
    }
}

/// Classifies content from its entropy, in units of `1 / ENTROPY_ONE` bit,
/// and the spread between its lightest and darkest luminance.
pub fn classify(entropy: u32, spread: u8) -> (features: ImageFeatures)
    ensures
        features == features_of(entropy, spread),
{
    let e: u64 = 2 * (entropy as u64);
    let one: u64 = ENTROPY_ONE as u64;
    let s: u32 = 10 * (spread as u32);
    ImageFeatures {
        entropy,
        is_graphic: e < 13 * one && s > 1020,
        is_portrait: 13 * one <= e && e <= 15 * one && 510 <= s && s <= 1530,
        is_landscape: entropy > 7 * ENTROPY_ONE && s < 1020,
    }
}

/// Graphic content excludes the two other kinds; portrait and landscape
/// can hold together, as at 7.25 bits and a contrast of 89 in 255, which is
/// why the class is decided in order.
pub proof fn lemma_rule_overlap(entropy: u32, spread: u8)
    ensures
        graphic_rule(entropy, spread) ==> !portrait_rule(entropy, spread) && !landscape_rule(
            entropy,
            spread,
        ),
        portrait_rule(30408704, 89) && landscape_rule(30408704, 89),
{
}

} // verus!
