//! Decoding and resampling, done by the `image` and `fast_image_resize`
//! crates behind trusted wrappers, with the checks around them verified.

use vstd::prelude::*;
use crate::buffer::RgbaBuffer;
use crate::buffer::sample_count;
use crate::error::ProcessError;
use crate::geometry::longer_side;
use crate::geometry::sample_dimensions;
use crate::geometry::scale_for;
use crate::geometry::target_size;
use crate::geometry::lemma_apply_bounds;
use crate::geometry::SAMPLE_DIMENSION;

verus! {

/// The container formats that are read.
#[derive(Clone, Copy, Debug, PartialEq, Eq, Structural)]
pub enum SourceFormat {
    Jpeg,
    Png,
    WebP,
    Bmp,
}

/// `image::ImageError`, carried through unread.
#[verifier::external_type_specification]
#[verifier::external_body]
pub struct ExImageError(image::ImageError);

/// `image::load_from_memory_with_format` followed by
/// `DynamicImage::to_rgba8`: width, height and the RGBA samples of the
/// decoded image. Nothing is claimed of what comes back.
#[verifier::external_body]
fn decode_rgba(bytes: &Vec<u8>, format: SourceFormat) -> (out: Result<
    (u32, u32, Vec<u8>),
    image::ImageError,
>) {
    let format = match format {
        SourceFormat::Jpeg => image::ImageFormat::Jpeg,
        SourceFormat::Png => image::ImageFormat::Png,
        SourceFormat::WebP => image::ImageFormat::WebP,
        SourceFormat::Bmp => image::ImageFormat::Bmp,
    };
    let rgba = image::load_from_memory_with_format(bytes, format)?.to_rgba8();
    Ok((rgba.width(), rgba.height(), rgba.into_raw()))
}

/// What becomes of a decoder's output: a zero dimension is refused first,
/// then a sample count that does not match the dimensions.
pub open spec fn decoded_outcome(width: u32, height: u32, len: nat) -> Result<(), ProcessError> {
    if width == 0 || height == 0 {
        Err(ProcessError::ZeroDimensions)
    } else if len != sample_count(width, height, 4) {
        Err(ProcessError::Decode)
    } else {
        Ok(())
    }
}

/// Accepts a decoder's output as an image, or says why it is none.
pub fn check_decoded(width: u32, height: u32, data: Vec<u8>) -> (out: Result<
    RgbaBuffer,
    ProcessError,
>)
    ensures
        match out {
            Ok(image) => decoded_outcome(width, height, data@.len()) is Ok && image.spec_width()
                == width && image.spec_height() == height && image.samples() == data@
                && image.wf(),
            Err(e) => decoded_outcome(width, height, data@.len()) == Err::<(), ProcessError>(e),
        },
{
    if width == 0 || height == 0 {
        return Err(ProcessError::ZeroDimensions);
    }
    match RgbaBuffer::from_raw(width, height, data) {
        Some(image) => Ok(image),
        None => Err(ProcessError::Decode),
    }
}

/// Decodes the content of a file of the given format.
///
/// An empty file is refused before the decoder sees it. What the decoder
/// returns is then held to `check_decoded`, so an image that comes back has
/// positive dimensions.
pub fn decode(bytes: &Vec<u8>, format: SourceFormat) -> (out: Result<RgbaBuffer, ProcessError>)
    ensures
        bytes@.len() == 0 ==> out == Err::<RgbaBuffer, ProcessError>(ProcessError::EmptyFile),
        out matches Err(e) ==> (bytes@.len() > 0 ==> e == ProcessError::Decode || e
            == ProcessError::ZeroDimensions),
        out matches Ok(image) ==> image.spec_width() > 0 && image.spec_height() > 0 && image.wf(),
{
    if bytes.len() == 0 {
        return Err(ProcessError::EmptyFile);
    }
    match decode_rgba(bytes, format) {
        Ok((width, height, data)) => {
            check_decoded(width, height, data)
        },
        Err(_) => Err(ProcessError::Decode),
    }
}

/// The samples that nearest-neighbour resizing of an RGBA image gives.
pub uninterp spec fn nearest_resize(
    rgba: Seq<u8>,
    width: u32,
    height: u32,
    new_width: u32,
    new_height: u32,
) -> Seq<u8>;

/// `image::imageops::resize` with `FilterType::Nearest` on an RGBA image.
/// The result has the requested size and depends on the arguments alone.
///
/// The crate indexes into the source, so the source must have pixels. It
/// allocates the result and, in between, an image of `width` by
/// `new_height` pixels of four 32-bit floats each; the last two
/// preconditions keep both within what a vector can hold, the second by
/// asking that twice those sixteen bytes a pixel fit the address space.
#[verifier::external_body]
fn resize_nearest(
    data: &Vec<u8>,
    width: u32,
    height: u32,
    new_width: u32,
    new_height: u32,
) -> (out: Vec<u8>)
    requires
        width > 0,
        height > 0,
        data@.len() == sample_count(width, height, 4),
        sample_count(new_width, new_height, 4) <= usize::MAX,
        sample_count(width, new_height, 32) <= usize::MAX,
    ensures
        out@ == nearest_resize(data@, width, height, new_width, new_height),
        out@.len() == sample_count(new_width, new_height, 4),
{
    let source: image::ImageBuffer<image::Rgba<u8>, &[u8]> = image::ImageBuffer::from_raw(
        width,
        height,
        data.as_slice(),
    ).unwrap();
    image::imageops::resize(&source, new_width, new_height, image::imageops::FilterType::Nearest)
        .into_raw()
}

/// The samples of the proxy on which an image is analysed: empty for an
/// image without pixels, else the image resized by nearest neighbour into a
/// square of `SAMPLE_DIMENSION`.
pub open spec fn proxy_samples(rgba: Seq<u8>, width: u32, height: u32) -> Seq<u8> {
    if width == 0 || height == 0 {
        Seq::empty()
    } else {
        let t = target_size(width, height, SAMPLE_DIMENSION);
        nearest_resize(rgba, width, height, t.width, t.height)
    }
}

/// A product of two lengths is no larger than the product of larger ones.
proof fn lemma_mul_le(a: nat, b: nat, c: nat, d: nat)
    requires
        a <= c,
        b <= d,
    ensures
        a * b <= c * d,
{
    assert(a * b <= c * d) by (nonlinear_arith)
        requires
            a <= c,
            b <= d,
    ;
}

/// The intermediate buffer of the proxy fits in memory whenever the image
/// itself does.
proof fn lemma_proxy_fits(width: u32, height: u32, limit: nat)
    requires
        width > 0,
        height > 0,
        sample_count(width, height, 4) <= limit,
        limit >= 0xffff_ffff,
    ensures
        sample_count(width, target_size(width, height, SAMPLE_DIMENSION).height, 32) <= limit,
        sample_count(
            target_size(width, height, SAMPLE_DIMENSION).width,
            target_size(width, height, SAMPLE_DIMENSION).height,
            4,
        ) <= limit,
{
    let s = scale_for(width, height, SAMPLE_DIMENSION);
    let t = target_size(width, height, SAMPLE_DIMENSION);
    let w = width as nat;
    let h = height as nat;
    let sw = t.width as nat;
    let sh = t.height as nat;
    lemma_apply_bounds(s, width);
    lemma_apply_bounds(s, height);
    assert(sw <= w && sh <= h);
    lemma_mul_le(sw, sh, w, h);
    assert(4 * sw * sh == 4 * (sw * sh)) by (nonlinear_arith);
    assert(4 * w * h == 4 * (w * h)) by (nonlinear_arith);
    assert(32 * w * sh == 32 * (w * sh)) by (nonlinear_arith);
    let long = longer_side(width, height) as nat;
    if long <= SAMPLE_DIMENSION {
        lemma_mul_le(w, sh, 512, 512);
    } else {
        assert(sh <= 512);
        // sh * long <= 512 * h, because sh is the floor of 512 * h / long
        assert(sh * long <= 512 * h) by (nonlinear_arith)
            requires
                sh == (h * 512) / long,
                long > 0,
        ;
        lemma_mul_le(w, sh, long, sh);
        assert(w * sh <= 512 * h) by (nonlinear_arith)
            requires
                w * sh <= long * sh,
                sh * long <= 512 * h,
        ;
        lemma_mul_le(w, sh, w, 512);
        // the product is at most 512 times the shorter side, and the square
        // of the shorter side is at most the number of pixels
        let m = if w <= h {
            w
        } else {
            h
        };
        lemma_mul_le(m, m, w, h);
        assert(w * sh <= 512 * m) by (nonlinear_arith)
            requires
                w * sh <= 512 * h,
                w * sh <= w * 512,
                m == w || m == h,
        ;
        if m >= 4096 {
            assert(16384 * m <= 4 * (m * m)) by (nonlinear_arith)
                requires
                    m >= 4096,
            ;
        }
    }
}

/// Downsamples an image, by nearest neighbour, to the proxy on which its
/// content is analysed: longer side at most `SAMPLE_DIMENSION`.
pub fn sample_proxy(image: &RgbaBuffer) -> (proxy: RgbaBuffer)
    ensures
        proxy.spec_width() == target_size(
            image.spec_width(),
            image.spec_height(),
            SAMPLE_DIMENSION,
        ).width,
        proxy.spec_height() == target_size(
            image.spec_width(),
            image.spec_height(),
            SAMPLE_DIMENSION,
        ).height,
        proxy.samples() == proxy_samples(
            image.samples(),
            image.spec_width(),
            image.spec_height(),
        ),
        proxy.wf(),
{
    let width: u32 = image.width();
    let height: u32 = image.height();
    let t = sample_dimensions(width, height);
    let data = image.data();
    let len: usize = data.len();
    let samples: Vec<u8> = if width == 0 || height == 0 {
        assert(sample_count(t.width, t.height, 4) == 0) by (nonlinear_arith)
            requires
                t.width <= width,
                t.height <= height,
                width == 0 || height == 0,
        ;
        Vec::new()
    } else {
        proof {
            lemma_proxy_fits(width, height, usize::MAX as nat);
        }
        resize_nearest(data, width, height, t.width, t.height)
    };
    match RgbaBuffer::from_raw(t.width, t.height, samples) {
        Some(proxy) => proxy,
        None => {
            proof {
                assert(false);
            }
            RgbaBuffer::from_raw(0, 0, Vec::new()).unwrap()
        },
    }
}

/// `fast_image_resize::ResizeError`, carried through unread.
#[verifier::external_type_specification]
#[verifier::external_body]
pub struct ExResizeError(fast_image_resize::ResizeError);

/// `fast_image_resize::Resizer::resize` with the Lanczos3 convolution, from
/// an RGBA image over `data` into a fresh image of the new size. With both
/// images of the same pixel type and no crop box the resizer has nothing to
/// refuse; the image that comes back has the new size, and where the size
/// does not change it is a copy of the source. The pixels may differ with the
/// instruction set of the machine, so nothing more is said of them.
#[verifier::external_body]
fn resize_lanczos3(
    data: &Vec<u8>,
    width: u32,
    height: u32,
    new_width: u32,
    new_height: u32,
) -> (out: Result<Vec<u8>, fast_image_resize::ResizeError>)
    requires
        data@.len() == sample_count(width, height, 4),
        new_width <= width,
        new_height <= height,
    ensures
        out is Ok,
        out matches Ok(samples) ==> samples@.len() == sample_count(new_width, new_height, 4),
        out matches Ok(samples) ==> (new_width == width && new_height == height ==> samples@
            == data@),
{
    let pixel = fast_image_resize::PixelType::U8x4;
    let source = fast_image_resize::images::ImageRef::new(width, height, data, pixel).unwrap();
    let mut target = fast_image_resize::images::Image::new(new_width, new_height, pixel);
    let lanczos = fast_image_resize::ResizeAlg::Convolution(fast_image_resize::FilterType::Lanczos3);
    let options = fast_image_resize::ResizeOptions::new().resize_alg(lanczos);
    fast_image_resize::Resizer::new().resize(&source, &mut target, &options)?;
    Ok(target.into_vec())
}

/// Resamples an image to `new_width` by `new_height` with a three-lobe
/// windowed-sinc kernel, in RGBA throughout.
///
/// The engine only ever shrinks: a size that exceeds the source on either
/// side is refused, and nothing else is. A size equal to the source returns
/// the source's pixels unchanged.
pub fn resize_image(image: &RgbaBuffer, new_width: u32, new_height: u32) -> (out: Result<
    RgbaBuffer,
    ProcessError,
>)
    ensures
        out is Ok <==> new_width <= image.spec_width() && new_height <= image.spec_height(),
        out matches Err(e) ==> e == ProcessError::Resize,
        out matches Ok(resized) ==> resized.spec_width() == new_width && resized.spec_height()
            == new_height && resized.wf(),
        new_width == image.spec_width() && new_height == image.spec_height() ==> (out matches Ok(
            resized,
        ) && resized.samples() == image.samples()),
{
    let width: u32 = image.width();
    let height: u32 = image.height();
    if new_width > width || new_height > height {
        return Err(ProcessError::Resize);
    }
    let samples = match resize_lanczos3(image.data(), width, height, new_width, new_height) {
        Ok(samples) => samples,
        Err(_) => {
            return Err(ProcessError::Resize);
        },
    };
    match RgbaBuffer::from_raw(new_width, new_height, samples) {
        Some(resized) => Ok(resized),
        None => Err(ProcessError::Resize),
    }
}

} // verus!
