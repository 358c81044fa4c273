//! Pixel buffers: 8-bit samples, rows from top to bottom, no padding.

use vstd::prelude::*;

verus! {

/// Number of samples an image of `width` by `height` holds at `channels`
/// samples per pixel.
pub open spec fn sample_count(width: u32, height: u32, channels: nat) -> nat {
    channels * (width as nat) * (height as nat)
}

/// Exactly `channels * width * height == len`, computed without overflow.
pub fn has_sample_count(len: usize, width: u32, height: u32, channels: u8) -> (ok: bool)
    ensures
        ok == (len == sample_count(width, height, channels as nat)),
{
    assert(width as nat * height as nat <= 0xffff_ffff * 0xffff_ffff) by (nonlinear_arith)
        requires
            width <= 0xffff_ffff,
            height <= 0xffff_ffff,
    ;
    let pixels: u64 = width as u64 * height as u64;
    assert(channels as nat * pixels as nat <= 255 * (0xffff_ffff * 0xffff_ffff))
        by (nonlinear_arith)
        requires
            channels <= 255,
            pixels <= 0xffff_ffff * 0xffff_ffff,
    ;
    let total: u128 = channels as u128 * pixels as u128;
    assert(channels as nat * (width as nat) * (height as nat) == channels as nat * (width as nat
        * height as nat)) by (nonlinear_arith);
    len as u128 == total
}

/// An RGBA image, four samples per pixel.
#[derive(Debug)]
pub struct RgbaBuffer {
    width: u32,
    height: u32,
    data: Vec<u8>,
}

/// An RGB image, three samples per pixel.
#[derive(Debug)]
pub struct RgbBuffer {
    width: u32,
    height: u32,
    data: Vec<u8>,
}

/// The RGB samples of an RGBA sample sequence: every fourth sample, the
/// alpha, is left out.
pub open spec fn drop_alpha(rgba: Seq<u8>) -> Seq<u8> {
    Seq::new((rgba.len() / 4 * 3) as nat, |i: int| rgba[i / 3 * 4 + i % 3])
}

impl RgbaBuffer {
    #[verifier::type_invariant]
    spec fn inv(&self) -> bool {
        self.data@.len() == sample_count(self.width, self.height, 4)
    }

    pub closed spec fn spec_width(&self) -> u32 {
        self.width
    }

    pub closed spec fn spec_height(&self) -> u32 {
        self.height
    }

    /// The samples, pixel by pixel.
    pub closed spec fn samples(&self) -> Seq<u8> {
        self.data@
    }

    /// The samples fill the image exactly.
    pub open spec fn wf(&self) -> bool {
        self.samples().len() == sample_count(self.spec_width(), self.spec_height(), 4)
    }

    /// Takes `data` as the samples of an image of `width` by `height`, if it
    /// holds exactly that many.
    pub fn from_raw(width: u32, height: u32, data: Vec<u8>) -> (out: Option<RgbaBuffer>)
        ensures
            out is Some <==> data@.len() == sample_count(width, height, 4),
            out matches Some(b) ==> b.spec_width() == width && b.spec_height() == height
                && b.samples() == data@ && b.wf(),
    {
        if has_sample_count(data.len(), width, height, 4) {
            Some(RgbaBuffer { width, height, data })
        } else {
            None
        }
    }

    pub fn width(&self) -> (w: u32)
        ensures
            w == self.spec_width(),
            self.wf(),
    {
        proof {
            use_type_invariant(self);
        }
        self.width
    }

    pub fn height(&self) -> (h: u32)
        ensures
            h == self.spec_height(),
            self.wf(),
    {
        proof {
            use_type_invariant(self);
        }
        self.height
    }

    pub fn data(&self) -> (d: &Vec<u8>)
        ensures
            d@ == self.samples(),
            self.wf(),
    {
        proof {
            use_type_invariant(self);
        }
        &self.data
    }

    pub fn into_raw(self) -> (d: Vec<u8>)
        ensures
            d@ == self.samples(),
            self.wf(),
    {
        proof {
            use_type_invariant(&self);
        }
        self.data
    }

    /// The same image without its alpha channel.
    pub fn to_rgb(&self) -> (out: RgbBuffer)
        ensures
            out.spec_width() == self.spec_width(),
            out.spec_height() == self.spec_height(),
            out.samples() == drop_alpha(self.samples()),
            out.wf(),
    {
        proof {
            use_type_invariant(self);
        }
        let len: usize = self.data.len();
        let n: usize = len / 4;
        let ghost w = self.width as nat;
        let ghost h = self.height as nat;
        assert(4 * w * h == 4 * (w * h)) by (nonlinear_arith);
        assert(3 * w * h == 3 * (w * h)) by (nonlinear_arith);
        assert(n == w * h);
        let mut rgb: Vec<u8> = Vec::new();
        let mut p: usize = 0;
        while p < n
            invariant
                p <= n,
                len == self.data@.len(),
                len == 4 * n,
                rgb@.len() == 3 * p,
                forall|i: int| 0 <= i < 3 * p ==> rgb@[i] == self.data@[i / 3 * 4 + i % 3],
            decreases n - p,
        {
            let base: usize = p * 4;
            rgb.push(self.data[base]);
            rgb.push(self.data[base + 1]);
            rgb.push(self.data[base + 2]);
            p = p + 1;
        }
        assert(rgb@ =~= drop_alpha(self.data@));
        RgbBuffer { width: self.width, height: self.height, data: rgb }
    }
}

impl RgbBuffer {
    #[verifier::type_invariant]
    spec fn inv(&self) -> bool {
        self.data@.len() == sample_count(self.width, self.height, 3)
    }

    pub closed spec fn spec_width(&self) -> u32 {
        self.width
    }

    pub closed spec fn spec_height(&self) -> u32 {
        self.height
    }

    /// The samples, pixel by pixel.
    pub closed spec fn samples(&self) -> Seq<u8> {
        self.data@
    }

    /// The samples fill the image exactly.
    pub open spec fn wf(&self) -> bool {
        self.samples().len() == sample_count(self.spec_width(), self.spec_height(), 3)
    }

    /// Takes `data` as the samples of an image of `width` by `height`, if it
    /// holds exactly that many.
    pub fn from_raw(width: u32, height: u32, data: Vec<u8>) -> (out: Option<RgbBuffer>)
        ensures
            out is Some <==> data@.len() == sample_count(width, height, 3),
            out matches Some(b) ==> b.spec_width() == width && b.spec_height() == height
                && b.samples() == data@ && b.wf(),
    {
        if has_sample_count(data.len(), width, height, 3) {
            Some(RgbBuffer { width, height, data })
        } else {
            None
        }
    }

    pub fn width(&self) -> (w: u32)
        ensures
            w == self.spec_width(),
            self.wf(),
    {
        proof {
            use_type_invariant(self);
        }
        self.width
    }

    pub fn height(&self) -> (h: u32)
        ensures
            h == self.spec_height(),
            self.wf(),
    {
        proof {
            use_type_invariant(self);
        }
        self.height
    }

    pub fn data(&self) -> (d: &Vec<u8>)
        ensures
            d@ == self.samples(),
            self.wf(),
    {
        proof {
            use_type_invariant(self);
        }
        &self.data
    }

    pub fn into_raw(self) -> (d: Vec<u8>)
        ensures
            d@ == self.samples(),
            self.wf(),
    {
        proof {
            use_type_invariant(&self);
        }
        self.data
    }
}

} // verus!
