//! Target dimensions: uniform downscaling into a bounding square.

use vstd::prelude::*;

verus! {

/// Longer side of the proxy on which content is analysed.
pub const SAMPLE_DIMENSION: u32 = 512;

/// A scale factor `num / den`, kept exact.
#[derive(Clone, Copy, Debug, PartialEq, Eq, Structural)]
pub struct Scale {
    pub num: u32,
    pub den: u32,
}

impl Scale {
    /// A factor in `[0, 1]` with a denominator that can be divided by.
    pub open spec fn wf(&self) -> bool {
        0 < self.den && self.num <= self.den
    }

    /// The factor 1: nothing is scaled.
    pub open spec fn is_identity(&self) -> bool {
        self.num == self.den
    }

    /// `x` scaled by the factor, rounded down.
    pub open spec fn apply(&self, x: u32) -> int {
        (x as int * self.num as int) / (self.den as int)
    }
}

/// What a resize is asked to produce: the factor and the new size.
#[derive(Clone, Copy, Debug, PartialEq, Eq, Structural)]
pub struct TargetSize {
    pub scale: Scale,
    pub width: u32,
    pub height: u32,
}

/// The longer of the two sides.
pub open spec fn longer_side(w: u32, h: u32) -> u32 {
    if w >= h {
        w
    } else {
        h
    }
}

/// The uniform factor `min(1, max_dim / longer_side)`.
pub open spec fn scale_for(w: u32, h: u32, max_dim: u32) -> Scale {
    if longer_side(w, h) > max_dim {
        Scale { num: max_dim, den: longer_side(w, h) }
    } else {
        Scale { num: 1, den: 1 }
    }
}

/// The size an image of `w` by `h` takes inside a square of `max_dim`.
pub open spec fn target_size(w: u32, h: u32, max_dim: u32) -> TargetSize {
    let scale = scale_for(w, h, max_dim);
    TargetSize { scale, width: scale.apply(w) as u32, height: scale.apply(h) as u32 }
}

/// Scaling by a factor of at most 1 never grows a length, and the
/// denominator itself is mapped onto the numerator.
pub proof fn lemma_apply_bounds(s: Scale, x: u32)
    requires
        s.wf(),
    ensures
        0 <= s.apply(x) <= x,
        x <= s.den ==> s.apply(x) <= s.num,
        s.apply(s.den) == s.num,
        s.is_identity() ==> s.apply(x) == x,
{
    let n = s.num as int;
    let d = s.den as int;
    let xi = x as int;
    assert(0 <= (xi * n) / d <= xi) by (nonlinear_arith)
        requires
            0 <= xi,
            0 <= n <= d,
            0 < d,
    ;
    assert(xi <= d ==> (xi * n) / d <= n) by (nonlinear_arith)
        requires
            0 <= xi,
            0 <= n <= d,
            0 < d,
    ;
    assert((d * n) / d == n) by (nonlinear_arith)
        requires
            0 <= n,
            0 < d,
    ;
    assert(n == d ==> (xi * n) / d == xi) by (nonlinear_arith)
        requires
            0 <= xi,
            0 < d,
    ;
}

/// Downscaling never enlarges: each side stays within its old length, the
/// longer side lands exactly on the bound when the image exceeded it, and an
/// image already within the bound keeps its size.
pub proof fn lemma_never_upscales(w: u32, h: u32, max_dim: u32)
    ensures
        target_size(w, h, max_dim).scale.wf(),
        target_size(w, h, max_dim).width <= w,
        target_size(w, h, max_dim).height <= h,
        longer_side(target_size(w, h, max_dim).width, target_size(w, h, max_dim).height)
            <= longer_side(longer_side(w, h), max_dim),
        longer_side(w, h) > max_dim ==> longer_side(
            target_size(w, h, max_dim).width,
            target_size(w, h, max_dim).height,
        ) == max_dim,
        longer_side(w, h) <= max_dim ==> target_size(w, h, max_dim).width == w && target_size(
            w,
            h,
            max_dim,
        ).height == h,
{
    let s = scale_for(w, h, max_dim);
    lemma_apply_bounds(s, w);
    lemma_apply_bounds(s, h);
}

/// Computes the target size of an image of `w` by `h` for a bounding
/// dimension of `max_dim`. The factor is kept as an exact ratio and each
/// side is rounded down.
pub fn calculate_dimensions(w: u32, h: u32, max_dim: u32) -> (target: TargetSize)
    ensures
        target == target_size(w, h, max_dim),
        target.scale.wf(),
        target.width <= w,
        target.height <= h,
        longer_side(target.width, target.height) <= longer_side(longer_side(w, h), max_dim),
        longer_side(w, h) > max_dim ==> longer_side(target.width, target.height) == max_dim,
        longer_side(w, h) <= max_dim ==> target.width == w && target.height == h,
        target.scale.is_identity() <==> longer_side(w, h) <= max_dim,
{
    proof {
        lemma_never_upscales(w, h, max_dim);
    }
    let current_max: u32 = if w >= h {
        w
    } else {
        h
    };
    if current_max > max_dim {
        let scale = Scale { num: max_dim, den: current_max };
        proof {
            lemma_apply_bounds(scale, w);
            lemma_apply_bounds(scale, h);
        }
        assert(w as int * max_dim as int <= 0xffff_ffff * 0xffff_ffff) by (nonlinear_arith)
            requires
                0 <= w <= 0xffff_ffff,
                0 <= max_dim <= 0xffff_ffff,
        ;
        assert(h as int * max_dim as int <= 0xffff_ffff * 0xffff_ffff) by (nonlinear_arith)
            requires
                0 <= h <= 0xffff_ffff,
                0 <= max_dim <= 0xffff_ffff,
        ;
        let nw: u64 = (w as u64 * max_dim as u64) / (current_max as u64);
        let nh: u64 = (h as u64 * max_dim as u64) / (current_max as u64);
        TargetSize { scale, width: nw as u32, height: nh as u32 }
    } else {
        let scale = Scale { num: 1, den: 1 };
        proof {
            lemma_apply_bounds(scale, w);
            lemma_apply_bounds(scale, h);
        }
        TargetSize { scale, width: w, height: h }
    }
}

/// The size of the proxy on which content is analysed: the image brought
/// into a square of `SAMPLE_DIMENSION`.
pub fn sample_dimensions(w: u32, h: u32) -> (target: TargetSize)
    ensures
        target == target_size(w, h, SAMPLE_DIMENSION),
        target.width <= w,
        target.height <= h,
        target.width <= SAMPLE_DIMENSION || target.width == w,
        longer_side(target.width, target.height) <= longer_side(
            longer_side(w, h),
            SAMPLE_DIMENSION,
        ),
        longer_side(w, h) > SAMPLE_DIMENSION ==> longer_side(target.width, target.height)
            == SAMPLE_DIMENSION,
{
    calculate_dimensions(w, h, SAMPLE_DIMENSION)
}

} // verus!
