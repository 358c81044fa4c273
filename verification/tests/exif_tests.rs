use image_compressor::exif::preserve_exif;
use img_parts::jpeg::Jpeg;
use img_parts::Bytes;

fn plain_jpeg(seed: u8) -> Vec<u8> {
    let data: Vec<u8> = (0..16 * 16 * 3).map(|i| (i as u8).wrapping_mul(seed)).collect();
    let mut out = Vec::new();
    jpeg_encoder::Encoder::new(&mut out, 80)
        .encode(&data, 16, 16, jpeg_encoder::ColorType::Rgb)
        .unwrap();
    out
}

fn jpeg_with_segments(segments: &[(u8, &[u8])]) -> Vec<u8> {
    let data = vec![128u8; 8 * 8 * 3];
    let mut out = Vec::new();
    let mut encoder = jpeg_encoder::Encoder::new(&mut out, 80);
    for (nr, content) in segments {
        encoder.add_app_segment(*nr, content).unwrap();
    }
    encoder.encode(&data, 8, 8, jpeg_encoder::ColorType::Rgb).unwrap();
    out
}

fn parse(bytes: &[u8]) -> Jpeg {
    Jpeg::from_bytes(Bytes::copy_from_slice(bytes)).unwrap()
}

#[test]
fn exif_segment_is_inserted_behind_the_leading_segment() {
    let exif: &[u8] = b"Exif\0\0II*\0\x08\0\0\0\0\0";
    let source = jpeg_with_segments(&[(1, exif)]);
    let encoded = plain_jpeg(7);
    let out = preserve_exif(&source, encoded.clone());

    let before = parse(&encoded);
    let after = parse(&out);
    assert_eq!(after.segments().len(), before.segments().len() + 1);
    assert_eq!(after.segments()[0], before.segments()[0]);
    assert_eq!(after.segments()[1].marker(), 0xE1);
    assert_eq!(after.segments()[1].contents().as_ref(), exif);
    assert_eq!(&after.segments()[2..], &before.segments()[1..]);
    assert_eq!(out.len(), encoded.len() + 4 + exif.len());
    assert_eq!(&out[..2], &[0xFF, 0xD8]);
}

#[test]
fn first_of_several_exif_segments_is_taken() {
    let source = jpeg_with_segments(&[(2, b"icc"), (1, b"first"), (1, b"second")]);
    let out = preserve_exif(&source, plain_jpeg(3));
    let after = parse(&out);
    assert_eq!(after.segments()[1].marker(), 0xE1);
    assert_eq!(after.segments()[1].contents().as_ref(), b"first");
    assert_eq!(after.segments().iter().filter(|s| s.marker() == 0xE1).count(), 1);
}

#[test]
fn output_stays_a_decodable_image() {
    let source = jpeg_with_segments(&[(1, b"Exif\0\0payload")]);
    let encoded = plain_jpeg(5);
    let out = preserve_exif(&source, encoded.clone());
    let a = image::load_from_memory_with_format(&encoded, image::ImageFormat::Jpeg).unwrap();
    let b = image::load_from_memory_with_format(&out, image::ImageFormat::Jpeg).unwrap();
    assert_eq!(a.to_rgb8().into_raw(), b.to_rgb8().into_raw());
}

#[test]
fn source_without_exif_changes_nothing() {
    let encoded = plain_jpeg(9);
    assert_eq!(preserve_exif(&plain_jpeg(2), encoded.clone()), encoded);
    let source = jpeg_with_segments(&[(2, b"not exif"), (13, b"nor this")]);
    assert_eq!(preserve_exif(&source, encoded.clone()), encoded);
}

#[test]
fn source_that_is_no_jpeg_changes_nothing() {
    let encoded = plain_jpeg(9);
    assert_eq!(preserve_exif(&Vec::new(), encoded.clone()), encoded);
    assert_eq!(preserve_exif(&b"\x89PNG\r\n\x1a\n".to_vec(), encoded.clone()), encoded);
    assert_eq!(preserve_exif(&vec![0xFF, 0xD8, 0xFF], encoded.clone()), encoded);
}

#[test]
fn output_that_does_not_parse_is_returned_unchanged() {
    let source = jpeg_with_segments(&[(1, b"Exif\0\0")]);
    assert_eq!(preserve_exif(&source, Vec::new()), Vec::<u8>::new());
    assert_eq!(preserve_exif(&source, vec![1, 2, 3]), vec![1, 2, 3]);
}

#[test]
fn output_without_segments_is_returned_unchanged() {
    let source = jpeg_with_segments(&[(1, b"Exif\0\0")]);
    let bare = vec![0xFF, 0xD8, 0xFF, 0xD9];
    assert_eq!(parse(&bare).segments().len(), 0);
    assert_eq!(preserve_exif(&source, bare.clone()), bare);
}
