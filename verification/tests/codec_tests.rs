use image_compressor::buffer::{RgbBuffer, RgbaBuffer};
use image_compressor::codec::{check_decoded, decode, resize_image, sample_proxy, SourceFormat};
use image_compressor::error::ProcessError;
use std::io::Cursor;

fn gradient(width: u32, height: u32) -> Vec<u8> {
    let mut data = Vec::with_capacity((width * height * 4) as usize);
    for y in 0..height {
        for x in 0..width {
            data.extend_from_slice(&[(x % 256) as u8, (y % 256) as u8, ((x + y) % 256) as u8, 255]);
        }
    }
    data
}

fn encode_as(width: u32, height: u32, format: image::ImageOutputFormat) -> Vec<u8> {
    let buffer = image::RgbaImage::from_raw(width, height, gradient(width, height)).unwrap();
    let image = match format {
        image::ImageOutputFormat::Png => image::DynamicImage::ImageRgba8(buffer),
        _ => image::DynamicImage::ImageRgb8(image::DynamicImage::ImageRgba8(buffer).to_rgb8()),
    };
    let mut bytes = Vec::new();
    image.write_to(&mut Cursor::new(&mut bytes), format).unwrap();
    bytes
}

#[test]
fn buffers_check_their_sample_count() {
    assert!(RgbaBuffer::from_raw(2, 3, vec![0; 24]).is_some());
    assert!(RgbaBuffer::from_raw(2, 3, vec![0; 23]).is_none());
    assert!(RgbaBuffer::from_raw(2, 3, vec![0; 25]).is_none());
    assert!(RgbaBuffer::from_raw(0, 3, vec![]).is_some());
    assert!(RgbaBuffer::from_raw(u32::MAX, u32::MAX, vec![0; 16]).is_none());
    assert!(RgbBuffer::from_raw(2, 3, vec![0; 18]).is_some());
    assert!(RgbBuffer::from_raw(2, 3, vec![0; 24]).is_none());
    let b = RgbaBuffer::from_raw(1, 2, vec![1, 2, 3, 4, 5, 6, 7, 8]).unwrap();
    assert_eq!((b.width(), b.height()), (1, 2));
    assert_eq!(b.data(), &vec![1, 2, 3, 4, 5, 6, 7, 8]);
    assert_eq!(b.into_raw(), vec![1, 2, 3, 4, 5, 6, 7, 8]);
}

#[test]
fn to_rgb_drops_every_fourth_sample() {
    let b = RgbaBuffer::from_raw(2, 2, (1..=16).collect()).unwrap();
    let rgb = b.to_rgb();
    assert_eq!((rgb.width(), rgb.height()), (2, 2));
    assert_eq!(rgb.into_raw(), vec![1, 2, 3, 5, 6, 7, 9, 10, 11, 13, 14, 15]);
    let empty = RgbaBuffer::from_raw(0, 0, vec![]).unwrap();
    assert_eq!(empty.to_rgb().into_raw(), Vec::<u8>::new());
}

#[test]
fn decoder_output_is_checked() {
    assert_eq!(check_decoded(0, 4, vec![]).unwrap_err(), ProcessError::ZeroDimensions);
    assert_eq!(check_decoded(4, 0, vec![]).unwrap_err(), ProcessError::ZeroDimensions);
    assert_eq!(check_decoded(0, 0, vec![1]).unwrap_err(), ProcessError::ZeroDimensions);
    assert_eq!(check_decoded(1, 1, vec![1, 2, 3]).unwrap_err(), ProcessError::Decode);
    let image = check_decoded(1, 1, vec![1, 2, 3, 4]).unwrap();
    assert_eq!(image.into_raw(), vec![1, 2, 3, 4]);
}

#[test]
fn empty_file_is_refused_before_decoding() {
    for format in [SourceFormat::Jpeg, SourceFormat::Png, SourceFormat::WebP, SourceFormat::Bmp] {
        assert_eq!(decode(&Vec::new(), format).unwrap_err(), ProcessError::EmptyFile);
    }
}

#[test]
fn png_decodes_to_its_pixels() {
    let bytes = encode_as(7, 5, image::ImageOutputFormat::Png);
    let image = decode(&bytes, SourceFormat::Png).unwrap();
    assert_eq!((image.width(), image.height()), (7, 5));
    assert_eq!(image.data(), &gradient(7, 5));
}

#[test]
fn bmp_and_jpeg_decode_to_their_size() {
    let bytes = encode_as(9, 4, image::ImageOutputFormat::Bmp);
    let image = decode(&bytes, SourceFormat::Bmp).unwrap();
    assert_eq!((image.width(), image.height()), (9, 4));
    let rgb: Vec<u8> = gradient(9, 4).chunks(4).flat_map(|p| p[..3].to_vec()).collect();
    assert_eq!(image.to_rgb().into_raw(), rgb);

    let bytes = encode_as(16, 8, image::ImageOutputFormat::Jpeg(90));
    let image = decode(&bytes, SourceFormat::Jpeg).unwrap();
    assert_eq!((image.width(), image.height()), (16, 8));
    assert_eq!(image.data().len(), 16 * 8 * 4);
}

#[test]
fn format_is_taken_from_the_caller_not_the_content() {
    let png = encode_as(4, 4, image::ImageOutputFormat::Png);
    assert_eq!(decode(&png, SourceFormat::Jpeg).unwrap_err(), ProcessError::Decode);
    assert_eq!(decode(&png, SourceFormat::Bmp).unwrap_err(), ProcessError::Decode);
    assert_eq!(decode(&png, SourceFormat::WebP).unwrap_err(), ProcessError::Decode);
    assert_eq!(decode(&vec![1, 2, 3, 4, 5], SourceFormat::Png).unwrap_err(), ProcessError::Decode);
}

#[test]
fn proxy_of_a_small_image_is_the_image() {
    let image = RgbaBuffer::from_raw(20, 10, gradient(20, 10)).unwrap();
    let proxy = sample_proxy(&image);
    assert_eq!((proxy.width(), proxy.height()), (20, 10));
    assert_eq!(proxy.data(), image.data());
}

#[test]
fn proxy_of_a_large_image_is_sampled_down() {
    let image = RgbaBuffer::from_raw(1024, 256, gradient(1024, 256)).unwrap();
    let proxy = sample_proxy(&image);
    assert_eq!((proxy.width(), proxy.height()), (512, 128));
    assert_eq!(proxy.data().len(), 512 * 128 * 4);
    // nearest neighbour: every proxy pixel is a pixel of the source
    let first = &proxy.data()[..4];
    assert_eq!(first[3], 255);
    assert!(first[0] <= 1 && first[1] <= 1);
    let last = &proxy.data()[proxy.data().len() - 4..];
    assert!(last[0] >= 254 && last[1] >= 254);
}

#[test]
fn proxy_of_an_image_without_pixels_is_empty() {
    let image = RgbaBuffer::from_raw(0, 7, vec![]).unwrap();
    let proxy = sample_proxy(&image);
    assert_eq!(proxy.data().len(), 0);
    let thin = RgbaBuffer::from_raw(1, 2000, gradient(1, 2000)).unwrap();
    let proxy = sample_proxy(&thin);
    assert_eq!((proxy.width(), proxy.height()), (0, 512));
    assert_eq!(proxy.data().len(), 0);
}

#[test]
fn resize_to_the_same_size_keeps_the_pixels() {
    let image = RgbaBuffer::from_raw(30, 20, gradient(30, 20)).unwrap();
    let same = resize_image(&image, 30, 20).unwrap();
    assert_eq!(same.data(), image.data());
}

#[test]
fn resize_shrinks_to_the_requested_size() {
    let image = RgbaBuffer::from_raw(200, 100, gradient(200, 100)).unwrap();
    let small = resize_image(&image, 50, 25).unwrap();
    assert_eq!((small.width(), small.height()), (50, 25));
    assert_eq!(small.data().len(), 50 * 25 * 4);
    assert!(small.data().chunks(4).all(|p| p[3] == 255));
    let again = resize_image(&image, 50, 25).unwrap();
    assert_eq!(small.data(), again.data());
    let empty = resize_image(&image, 0, 25).unwrap();
    assert_eq!(empty.data().len(), 0);
}

#[test]
fn resize_never_enlarges() {
    let image = RgbaBuffer::from_raw(10, 10, gradient(10, 10)).unwrap();
    assert_eq!(resize_image(&image, 11, 10).unwrap_err(), ProcessError::Resize);
    assert_eq!(resize_image(&image, 10, 11).unwrap_err(), ProcessError::Resize);
    assert_eq!(resize_image(&image, 5, 20).unwrap_err(), ProcessError::Resize);
}
