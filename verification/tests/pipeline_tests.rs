use image_compressor::analysis::{luma_statistics, to_luma, ENTROPY_ONE};
use image_compressor::buffer::RgbaBuffer;
use image_compressor::codec::SourceFormat;
use image_compressor::config::{ProcessConfig, ProcessMode};
use image_compressor::error::ProcessError;
use image_compressor::filters::{Ratio, UnsharpMask};
use image_compressor::geometry::Scale;
use image_compressor::paths::source_format;
use image_compressor::pipeline::Processor;
use std::io::Cursor;

fn bits(entropy: f64) -> u32 {
    (entropy * ENTROPY_ONE as f64) as u32
}

fn smooth(width: u32, height: u32) -> Vec<u8> {
    let mut data = Vec::with_capacity((width * height * 4) as usize);
    for y in 0..height {
        for x in 0..width {
            let r = (x * 255 / width) as u8;
            let g = (y * 255 / height) as u8;
            data.extend_from_slice(&[r, g, 128, 255]);
        }
    }
    data
}

fn wechat() -> Processor {
    Processor::new(ProcessConfig::preset(ProcessMode::WeChat, 0, 0, 0, None, false, false))
}

fn custom(max_dim: u32, quality: u8, target_kb: u32) -> Processor {
    Processor::new(ProcessConfig::preset(
        ProcessMode::Custom,
        max_dim,
        quality,
        target_kb,
        None,
        false,
        false,
    ))
}

#[test]
fn large_photo_in_wechat_mode() {
    let processor = wechat();
    let source = RgbaBuffer::from_raw(4000, 3000, smooth(4000, 3000)).unwrap();
    let prepared = processor.prepare_decoded(&source).unwrap();
    assert_eq!((prepared.image.width(), prepared.image.height()), (2048, 1536));
    assert_eq!(prepared.scale, Scale { num: 2048, den: 4000 });
    assert_eq!(prepared.stats.total, 512 * 384);

    let bytes = processor.finish(&prepared.image, &Vec::new()).unwrap();
    assert!(bytes.len() <= 900 * 1024);
    assert_eq!(&bytes[..2], &[0xFF, 0xD8]);

    let target = processor.get_output_path("/photos", "IMG_0001.JPG");
    assert_eq!(target.dir, "/photos");
    assert_eq!(target.file_name, "IMG_0001_xiao.jpg");
}

#[test]
fn output_of_the_pipeline_decodes_to_the_target_size() {
    let processor = custom(100, 80, 900);
    let source = {
        let buffer = image::RgbaImage::from_raw(300, 150, smooth(300, 150)).unwrap();
        let mut bytes = Vec::new();
        image::DynamicImage::ImageRgba8(buffer)
            .write_to(&mut Cursor::new(&mut bytes), image::ImageOutputFormat::Png)
            .unwrap();
        bytes
    };
    let format = source_format("holiday.png").unwrap();
    assert_eq!(format, SourceFormat::Png);
    let prepared = processor.prepare(&source, format).unwrap();
    assert_eq!((prepared.image.width(), prepared.image.height()), (100, 50));
    assert_eq!(prepared.stats.total, 300 * 150);

    let plan = processor.plan_filters(&prepared.stats, bits(7.3), prepared.scale);
    assert_eq!(plan.denoise, None);
    assert_eq!(plan.sharpen.sigma, Ratio { num: 100, den: 300 });

    let bytes = processor.finish(&prepared.image, &source).unwrap();
    let decoded = image::load_from_memory_with_format(&bytes, image::ImageFormat::Jpeg).unwrap();
    assert_eq!((decoded.width(), decoded.height()), (100, 50));
}

#[test]
fn image_within_the_bound_keeps_its_pixels() {
    let processor = custom(2048, 85, 900);
    let data = smooth(40, 30);
    let source = RgbaBuffer::from_raw(40, 30, data.clone()).unwrap();
    let prepared = processor.prepare_decoded(&source).unwrap();
    assert_eq!(prepared.scale, Scale { num: 1, den: 1 });
    let rgb: Vec<u8> = data.chunks(4).flat_map(|p| p[..3].to_vec()).collect();
    assert_eq!(prepared.image.data(), &rgb);
}

#[test]
fn statistics_describe_the_proxy() {
    let processor = wechat();
    let source = RgbaBuffer::from_raw(64, 64, smooth(64, 64)).unwrap();
    let stats = processor.analyze_content(&source);
    let expected = luma_statistics(&to_luma(&source));
    assert_eq!(stats.histogram, expected.histogram);
    assert_eq!((stats.min, stats.max, stats.total), (expected.min, expected.max, 64 * 64));
    assert!(stats.max > stats.min);
}

#[test]
fn image_without_pixels_is_refused() {
    let processor = wechat();
    let source = RgbaBuffer::from_raw(0, 10, Vec::new()).unwrap();
    assert_eq!(processor.prepare_decoded(&source).unwrap_err(), ProcessError::ZeroDimensions);
}

#[test]
fn corrupt_and_empty_files_are_refused() {
    let processor = wechat();
    assert_eq!(
        processor.prepare(&Vec::new(), SourceFormat::Png).unwrap_err(),
        ProcessError::EmptyFile
    );
    assert_eq!(
        processor.prepare(&b"not an image".to_vec(), SourceFormat::Jpeg).unwrap_err(),
        ProcessError::Decode
    );
}

#[test]
fn sliver_that_scales_to_nothing_cannot_be_encoded() {
    let processor = custom(10, 85, 900);
    let source = RgbaBuffer::from_raw(1, 100, smooth(1, 100)).unwrap();
    let prepared = processor.prepare_decoded(&source).unwrap();
    assert_eq!((prepared.image.width(), prepared.image.height()), (0, 10));
    assert_eq!(processor.finish(&prepared.image, &Vec::new()).unwrap_err(), ProcessError::Encode);
}

#[test]
fn plan_follows_mode_and_content() {
    let stats = luma_statistics(&vec![0, 150]);
    let hd = Processor::new(ProcessConfig::preset(ProcessMode::HD, 0, 0, 0, None, false, false));
    let plan = hd.plan_filters(&stats, bits(6.0), Scale { num: 1, den: 2 });
    assert!(plan.features.is_graphic);
    assert_eq!(plan.denoise, None);
    assert_eq!(plan.sharpen, UnsharpMask { sigma: Ratio { num: 9, den: 5 }, threshold: 13 });

    let plan = wechat().plan_filters(&stats, bits(7.0), Scale { num: 1, den: 2 });
    assert!(plan.features.is_portrait);
    assert_eq!(plan.denoise, Some(Ratio { num: 1, den: 2 }));
    assert_eq!(plan.sharpen, UnsharpMask { sigma: Ratio { num: 3, den: 4 }, threshold: 12 });
}

#[test]
fn exif_of_the_source_reaches_the_output() {
    let processor = custom(64, 85, 900);
    let exif: &[u8] = b"Exif\0\0MM\0*\0\0\0\x08\0\0";
    let source_bytes = {
        let rgb = vec![90u8; 32 * 32 * 3];
        let mut out = Vec::new();
        let mut encoder = jpeg_encoder::Encoder::new(&mut out, 90);
        encoder.add_app_segment(1, exif).unwrap();
        encoder.encode(&rgb, 32, 32, jpeg_encoder::ColorType::Rgb).unwrap();
        out
    };
    let prepared = processor.prepare(&source_bytes, SourceFormat::Jpeg).unwrap();
    let bytes = processor.finish(&prepared.image, &source_bytes).unwrap();
    let jpeg = img_parts::jpeg::Jpeg::from_bytes(img_parts::Bytes::from(bytes)).unwrap();
    assert_eq!(jpeg.segments()[1].marker(), 0xE1);
    assert_eq!(jpeg.segments()[1].contents().as_ref(), exif);
}
