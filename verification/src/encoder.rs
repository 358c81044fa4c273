//! Size-targeted JPEG encoding: a bounded binary search over the quality
//! factor for the best encoding that fits a byte budget.

use vstd::prelude::*;
use crate::buffer::RgbBuffer;
use crate::buffer::sample_count;
use crate::config::ProcessConfig;
use crate::error::ProcessError;

verus! {

/// Lowest quality the search will try.
pub const SEARCH_FLOOR: u8 = 40;

/// Highest quality the search will try.
pub const SEARCH_CEILING: u8 = 95;

/// Most encoder runs one image can cost: the first attempt and six probes.
pub const MAX_ENCODES: u32 = 7;

/// `jpeg_encoder::EncodingError`, carried through unread.
#[verifier::external_type_specification]
#[verifier::external_body]
pub struct ExEncodingError(jpeg_encoder::EncodingError);

/// The JPEG that the encoder writes for RGB samples of the given size at the
/// given quality.
pub uninterp spec fn jpeg_encoding(rgb: Seq<u8>, width: u16, height: u16, quality: u8) -> Seq<u8>;

/// The inputs the encoder accepts: a non-empty image with all its samples.
pub open spec fn encodable(len: nat, width: u16, height: u16) -> bool {
    width > 0 && height > 0 && len >= sample_count(width as u32, height as u32, 3)
}

/// `jpeg_encoder::Encoder::new(..).encode(.., ColorType::Rgb)` into a fresh
/// vector. The encoder fails on a zero dimension and on too few samples and
/// on nothing else, since writing to a vector cannot fail; what it writes
/// depends on its arguments alone.
#[verifier::external_body]
fn encode_jpeg(rgb: &Vec<u8>, width: u16, height: u16, quality: u8) -> (out: Result<
    Vec<u8>,
    jpeg_encoder::EncodingError,
>)
    requires
        sample_count(width as u32, height as u32, 3) <= usize::MAX,
    ensures
        out is Ok <==> encodable(rgb@.len(), width, height),
        out matches Ok(bytes) ==> bytes@ == jpeg_encoding(rgb@, width, height, quality),
{
    let mut bytes: Vec<u8> = Vec::new();
    let encoder = jpeg_encoder::Encoder::new(&mut bytes, quality);
    encoder.encode(rgb, width, height, jpeg_encoder::ColorType::Rgb)?;
    Ok(bytes)
}

/// The interval of qualities still to be searched; empty when `low > high`.
#[derive(Clone, Copy, Debug, PartialEq, Eq, Structural)]
pub struct SearchInterval {
    pub low: u8,
    pub high: u8,
}

impl SearchInterval {
    /// Bounds stay inside the searched range, with room to step past either
    /// end.
    pub open spec fn wf(&self) -> bool {
        SEARCH_FLOOR <= self.low && self.high <= SEARCH_CEILING && self.low <= self.high + 1
    }

    pub open spec fn is_empty(&self) -> bool {
        self.low > self.high
    }

    /// Number of qualities left.
    pub open spec fn size(&self) -> nat {
        if self.low > self.high {
            0
        } else {
            (self.high - self.low + 1) as nat
        }
    }

    /// The quality probed next: the midpoint, rounded down.
    pub open spec fn midpoint(&self) -> u8 {
        ((self.low + self.high) / 2) as u8
    }

    /// The interval after a probe at the midpoint: the upper half if the
    /// probe fits the budget, the lower half if it does not.
    pub open spec fn narrowed(&self, fits: bool) -> SearchInterval {
        if fits {
            SearchInterval { low: (self.midpoint() + 1) as u8, high: self.high }
        } else {
            SearchInterval { low: self.low, high: (self.midpoint() - 1) as u8 }
        }
    }

    /// The interval searched for a configured quality:
    /// `[SEARCH_FLOOR, min(quality, SEARCH_CEILING)]`.
    pub open spec fn initial(quality: u8) -> SearchInterval {
        SearchInterval {
            low: SEARCH_FLOOR,
            high: if quality < SEARCH_CEILING {
                quality
            } else {
                SEARCH_CEILING
            },
        }
    }

    /// Starts a search below the configured quality. For a quality under
    /// `SEARCH_FLOOR` there is nothing to search.
    pub fn start(quality: u8) -> (interval: SearchInterval)
        ensures
            interval == Self::initial(quality),
            quality >= SEARCH_FLOOR - 1 ==> interval.wf(),
            quality < SEARCH_FLOOR ==> interval.is_empty(),
    {
        SearchInterval {
            low: SEARCH_FLOOR,
            high: if quality < SEARCH_CEILING {
                quality
            } else {
                SEARCH_CEILING
            },
        }
    }

    /// The quality to probe next, or `None` when the search is over.
    pub fn next_probe(&self) -> (probe: Option<u8>)
        ensures
            probe == if self.is_empty() {
                None
            } else {
                Some(self.midpoint())
            },
            probe matches Some(q) ==> self.low <= q <= self.high,
    {
        if self.low > self.high {
            None
        } else {
            let mid: u16 = (self.low as u16 + self.high as u16) / 2;
            Some(mid as u8)
        }
    }

    /// Narrows the interval by the outcome of the probe at its midpoint.
    /// Each step at least halves what is left.
    pub fn advance(&self, fits: bool) -> (next: SearchInterval)
        requires
            self.wf(),
            !self.is_empty(),
        ensures
            next == self.narrowed(fits),
            next.wf(),
            next.size() <= self.size() / 2,
    {
        let mid: u16 = (self.low as u16 + self.high as u16) / 2;
        if fits {
            SearchInterval { low: (mid + 1) as u8, high: self.high }
        } else {
            SearchInterval { low: self.low, high: (mid - 1) as u8 }
        }
    }
}

/// Most probes a search over `n` qualities can take: the number of times
/// `n` can be halved before nothing is left.
pub open spec fn probe_bound(n: nat) -> nat
    decreases n,
{
    if n == 0 {
        0
    } else {
        1 + probe_bound(n / 2)
    }
}

/// The encoding a search over `interval` ends with, given the best encoding
/// found before it: each probe that fits the budget becomes the best and
/// sends the search upwards, each that does not sends it downwards.
pub open spec fn search_result(
    rgb: Seq<u8>,
    width: u16,
    height: u16,
    budget: nat,
    interval: SearchInterval,
    best: Seq<u8>,
) -> Seq<u8>
    decreases interval.size(),
{
    if interval.is_empty() || !interval.wf() {
        best
    } else {
        let probe = jpeg_encoding(rgb, width, height, interval.midpoint());
        let fits = probe.len() <= budget;
        search_result(
            rgb,
            width,
            height,
            budget,
            interval.narrowed(fits),
            if fits {
                probe
            } else {
                best
            },
        )
    }
}

/// The quality of the encoding that `search_result` ends with, given the
/// quality of the best encoding found before it.
pub open spec fn search_quality(
    rgb: Seq<u8>,
    width: u16,
    height: u16,
    budget: nat,
    interval: SearchInterval,
    best: u8,
) -> u8
    decreases interval.size(),
{
    if interval.is_empty() || !interval.wf() {
        best
    } else {
        let probe = jpeg_encoding(rgb, width, height, interval.midpoint());
        let fits = probe.len() <= budget;
        search_quality(
            rgb,
            width,
            height,
            budget,
            interval.narrowed(fits),
            if fits {
                interval.midpoint()
            } else {
                best
            },
        )
    }
}

/// Number of probes a search over `interval` makes.
pub open spec fn search_probes(
    rgb: Seq<u8>,
    width: u16,
    height: u16,
    budget: nat,
    interval: SearchInterval,
) -> nat
    decreases interval.size(),
{
    if interval.is_empty() || !interval.wf() {
        0
    } else {
        let probe = jpeg_encoding(rgb, width, height, interval.midpoint());
        1 + search_probes(rgb, width, height, budget, interval.narrowed(probe.len() <= budget))
    }
}

/// Whether the first attempt is returned as it is: it fits the budget, or
/// the budget counts as unbounded.
pub open spec fn first_attempt_stands(first_len: nat, config: ProcessConfig) -> bool {
    first_len <= config.target_bytes_spec() || config.is_unbounded_spec()
}

/// The bytes that size-targeted encoding produces.
pub open spec fn target_size_encoding(
    rgb: Seq<u8>,
    width: u16,
    height: u16,
    config: ProcessConfig,
) -> Seq<u8> {
    let first = jpeg_encoding(rgb, width, height, config.quality);
    if first_attempt_stands(first.len(), config) {
        first
    } else {
        search_result(
            rgb,
            width,
            height,
            config.target_bytes_spec(),
            SearchInterval::initial(config.quality),
            first,
        )
    }
}

/// The quality at which `target_size_encoding` was encoded.
pub open spec fn target_size_quality(
    rgb: Seq<u8>,
    width: u16,
    height: u16,
    config: ProcessConfig,
) -> u8 {
    let first = jpeg_encoding(rgb, width, height, config.quality);
    if first_attempt_stands(first.len(), config) {
        config.quality
    } else {
        search_quality(
            rgb,
            width,
            height,
            config.target_bytes_spec(),
            SearchInterval::initial(config.quality),
            config.quality,
        )
    }
}

/// Number of encoder runs that size-targeted encoding costs.
pub open spec fn target_size_encodes(
    rgb: Seq<u8>,
    width: u16,
    height: u16,
    config: ProcessConfig,
) -> nat {
    let first = jpeg_encoding(rgb, width, height, config.quality);
    if first_attempt_stands(first.len(), config) {
        1
    } else {
        1 + search_probes(
            rgb,
            width,
            height,
            config.target_bytes_spec(),
            SearchInterval::initial(config.quality),
        )
    }
}

/// Halving is monotone, so a smaller interval has a smaller probe bound.
pub proof fn lemma_probe_bound_monotone(a: nat, b: nat)
    requires
        a <= b,
    ensures
        probe_bound(a) <= probe_bound(b),
    decreases b,
{
    if a > 0 {
        lemma_probe_bound_monotone(a / 2, b / 2);
    }
}

/// A search makes no more probes than its interval can be halved.
pub proof fn lemma_search_probes_bounded(
    rgb: Seq<u8>,
    width: u16,
    height: u16,
    budget: nat,
    interval: SearchInterval,
)
    ensures
        search_probes(rgb, width, height, budget, interval) <= probe_bound(interval.size()),
    decreases interval.size(),
{
    if !(interval.is_empty() || !interval.wf()) {
        let probe = jpeg_encoding(rgb, width, height, interval.midpoint());
        let next = interval.narrowed(probe.len() <= budget);
        lemma_search_probes_bounded(rgb, width, height, budget, next);
        lemma_probe_bound_monotone(next.size(), interval.size() / 2);
    }
}

/// The whole range of qualities, 56 of them, is searched in six probes.
pub proof fn lemma_full_range_bound()
    ensures
        probe_bound((SEARCH_CEILING - SEARCH_FLOOR + 1) as nat) == 6,
{
    reveal_with_fuel(probe_bound, 8);
}

/// Whatever the budget and the configured quality, size-targeted encoding
/// runs the encoder at most `MAX_ENCODES` times.
pub proof fn lemma_encodes_bounded(rgb: Seq<u8>, width: u16, height: u16, config: ProcessConfig)
    ensures
        1 <= target_size_encodes(rgb, width, height, config) <= MAX_ENCODES,
{
    let interval = SearchInterval::initial(config.quality);
    lemma_search_probes_bounded(rgb, width, height, config.target_bytes_spec(), interval);
    lemma_probe_bound_monotone(interval.size(), 56);
    lemma_full_range_bound();
}

/// If the first attempt fits the budget it is the result, at the configured
/// quality and at the cost of that one encoder run.
pub proof fn lemma_first_attempt_is_kept(
    rgb: Seq<u8>,
    width: u16,
    height: u16,
    config: ProcessConfig,
)
    ensures
        jpeg_encoding(rgb, width, height, config.quality).len() <= config.target_bytes_spec() ==> {
            &&& target_size_encoding(rgb, width, height, config) == jpeg_encoding(
                rgb,
                width,
                height,
                config.quality,
            )
            &&& target_size_quality(rgb, width, height, config) == config.quality
            &&& target_size_encodes(rgb, width, height, config) == 1
        },
{
}

/// The result of a search is the best encoding it started with or a probe
/// from the interval that fits the budget.
pub proof fn lemma_search_result_fits(
    rgb: Seq<u8>,
    width: u16,
    height: u16,
    budget: nat,
    interval: SearchInterval,
    best: Seq<u8>,
    best_quality: u8,
)
    ensures
        ({
            let q = search_quality(rgb, width, height, budget, interval, best_quality);
            let r = search_result(rgb, width, height, budget, interval, best);
            ||| (q == best_quality && r == best)
            ||| (interval.low <= q <= interval.high && r == jpeg_encoding(rgb, width, height, q)
                && r.len() <= budget)
        }),
    decreases interval.size(),
{
    if !(interval.is_empty() || !interval.wf()) {
        let mid = interval.midpoint();
        let probe = jpeg_encoding(rgb, width, height, mid);
        let fits = probe.len() <= budget;
        let next = interval.narrowed(fits);
        if fits {
            lemma_search_result_fits(rgb, width, height, budget, next, probe, mid);
        } else {
            lemma_search_result_fits(rgb, width, height, budget, next, best, best_quality);
        }
    }
}

/// Sizes that never shrink as the quality grows, over the searched range.
pub open spec fn sizes_monotone(rgb: Seq<u8>, width: u16, height: u16) -> bool {
    forall|p: u8, q: u8|
        SEARCH_FLOOR <= p <= q <= SEARCH_CEILING ==> #[trigger] jpeg_encoding(
            rgb,
            width,
            height,
            p,
        ).len() <= #[trigger] jpeg_encoding(rgb, width, height, q).len()
}

/// Where larger qualities give larger-or-equal sizes, the search is
/// optimal: if any quality `q` of the interval fits the budget, the search
/// ends with a quality of the interval that fits and is no lower than `q`.
pub proof fn lemma_search_optimal(
    rgb: Seq<u8>,
    width: u16,
    height: u16,
    budget: nat,
    interval: SearchInterval,
    best_quality: u8,
    q: u8,
)
    ensures
        ({
            &&& sizes_monotone(rgb, width, height)
            &&& interval.wf()
            &&& interval.low <= q <= interval.high
            &&& jpeg_encoding(rgb, width, height, q).len() <= budget
        }) ==> ({
            let found = search_quality(rgb, width, height, budget, interval, best_quality);
            q <= found <= interval.high && jpeg_encoding(rgb, width, height, found).len() <= budget
        }),
    decreases interval.size(),
{
    if sizes_monotone(rgb, width, height) && interval.wf() && interval.low <= q <= interval.high
        && jpeg_encoding(rgb, width, height, q).len() <= budget {
        let mid = interval.midpoint();
        let probe = jpeg_encoding(rgb, width, height, mid);
        let fits = probe.len() <= budget;
        let next = interval.narrowed(fits);
        if fits {
            if q > mid {
                lemma_search_optimal(rgb, width, height, budget, next, mid, q);
            } else {
                lemma_search_result_fits(rgb, width, height, budget, next, probe, mid);
            }
        } else {
            assert(q < mid) by {
                if q >= mid {
                    assert(jpeg_encoding(rgb, width, height, mid).len() <= jpeg_encoding(
                        rgb,
                        width,
                        height,
                        q,
                    ).len());
                }
            }
            lemma_search_optimal(rgb, width, height, budget, next, best_quality, q);
        }
    }
}

/// An encoded image with the quality it was encoded at and the number of
/// encoder runs it took.
#[derive(Debug)]
pub struct Encoded {
    pub data: Vec<u8>,
    pub quality: u8,
    pub encodes: u32,
}

/// Whether an image of this size can be handed to the encoder: both sides
/// positive and within 16 bits.
pub open spec fn encodable_size(width: u32, height: u32) -> bool {
    0 < width <= 0xffff && 0 < height <= 0xffff
}

/// Encodes `image` as a JPEG of at most `config.target_kb` KiB, if a quality
/// from `SEARCH_FLOOR` up allows it.
///
/// The first attempt is made at the configured quality and returned at once
/// if it fits or the budget is unbounded. Otherwise the qualities in
/// `[SEARCH_FLOOR, min(quality, SEARCH_CEILING)]` are searched for the
/// highest that fits; if none does, the first attempt is returned.
pub fn encode_with_target_size(image: &RgbBuffer, config: &ProcessConfig) -> (out: Result<
    Encoded,
    ProcessError,
>)
    ensures
        out is Ok <==> encodable_size(image.spec_width(), image.spec_height()),
        out matches Err(e) ==> e == ProcessError::Encode,
        out matches Ok(encoded) ==> {
            let w = image.spec_width() as u16;
            let h = image.spec_height() as u16;
            &&& encoded.data@ == target_size_encoding(image.samples(), w, h, *config)
            &&& encoded.quality == target_size_quality(image.samples(), w, h, *config)
            &&& encoded.encodes == target_size_encodes(image.samples(), w, h, *config)
            &&& 1 <= encoded.encodes <= MAX_ENCODES
            &&& first_attempt_stands(
                jpeg_encoding(image.samples(), w, h, config.quality).len(),
                *config,
            ) ==> encoded.data@ == jpeg_encoding(image.samples(), w, h, config.quality)
                && encoded.encodes == 1
        },
{
    let width: u32 = image.width();
    let height: u32 = image.height();
    if width == 0 || height == 0 || width > 0xffff || height > 0xffff {
        return Err(ProcessError::Encode);
    }
    let w: u16 = width as u16;
    let h: u16 = height as u16;
    let rgb = image.data();
    let budget: u64 = config.target_bytes();
    let len: usize = rgb.len();
    proof {
        assert(len == sample_count(w as u32, h as u32, 3));
        lemma_encodes_bounded(rgb@, w, h, *config);
    }
    let first = match encode_jpeg(rgb, w, h, config.quality) {
        Ok(bytes) => bytes,
        Err(_) => {
            return Err(ProcessError::Encode);
        },
    };
    if first.len() as u64 <= budget || config.is_unbounded() {
        return Ok(Encoded { data: first, quality: config.quality, encodes: 1 });
    }
    let mut interval = SearchInterval::start(config.quality);
    let mut best = first;
    let mut best_quality: u8 = config.quality;
    let mut encodes: u32 = 1;
    let ghost start = interval;
    let ghost first_bytes = best@;
    loop
        invariant
            rgb@ == image.samples(),
            encodable(rgb@.len(), w, h),
            sample_count(w as u32, h as u32, 3) <= usize::MAX,
            budget == config.target_bytes_spec(),
            interval.is_empty() || interval.wf(),
            search_result(rgb@, w, h, budget as nat, start, first_bytes) == search_result(
                rgb@,
                w,
                h,
                budget as nat,
                interval,
                best@,
            ),
            search_quality(rgb@, w, h, budget as nat, start, config.quality) == search_quality(
                rgb@,
                w,
                h,
                budget as nat,
                interval,
                best_quality,
            ),
            1 + search_probes(rgb@, w, h, budget as nat, start) == encodes + search_probes(
                rgb@,
                w,
                h,
                budget as nat,
                interval,
            ),
            1 + search_probes(rgb@, w, h, budget as nat, start) <= MAX_ENCODES,
        ensures
            interval.is_empty(),
        decreases interval.size(),
    {
        let mid: u8 = match interval.next_probe() {
            Some(q) => q,
            None => {
                break ;
            },
        };
        let probe = match encode_jpeg(rgb, w, h, mid) {
            Ok(bytes) => bytes,
            Err(_) => {
                return Err(ProcessError::Encode);
            },
        };
        let fits: bool = probe.len() as u64 <= budget;
        if fits {
            best = probe;
            best_quality = mid;
        }
        interval = interval.advance(fits);
        encodes = encodes + 1;
    }
    Ok(Encoded { data: best, quality: best_quality, encodes })
}

} // verus!
