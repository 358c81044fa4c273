use image_compressor::buffer::RgbBuffer;
use image_compressor::config::{ProcessConfig, ProcessMode};
use image_compressor::encoder::{encode_with_target_size, SearchInterval};
use image_compressor::error::ProcessError;

fn config(target_kb: u32, quality: u8) -> ProcessConfig {
    ProcessConfig::preset(ProcessMode::Custom, 2048, quality, target_kb, None, false, false)
}

fn noise(width: u32, height: u32) -> RgbBuffer {
    let mut state: u32 = 0x2545_F491;
    let mut data = Vec::with_capacity((width * height * 3) as usize);
    for _ in 0..width * height * 3 {
        state ^= state << 13;
        state ^= state >> 17;
        state ^= state << 5;
        data.push((state >> 24) as u8);
    }
    RgbBuffer::from_raw(width, height, data).unwrap()
}

fn reference(image: &RgbBuffer, quality: u8) -> Vec<u8> {
    let mut out = Vec::new();
    jpeg_encoder::Encoder::new(&mut out, quality)
        .encode(image.data(), image.width() as u16, image.height() as u16, jpeg_encoder::ColorType::Rgb)
        .unwrap();
    out
}

#[test]
fn interval_starts_below_the_configured_quality() {
    assert_eq!(SearchInterval::start(85), SearchInterval { low: 40, high: 85 });
    assert_eq!(SearchInterval::start(100), SearchInterval { low: 40, high: 95 });
    assert_eq!(SearchInterval::start(95), SearchInterval { low: 40, high: 95 });
    assert_eq!(SearchInterval::start(40), SearchInterval { low: 40, high: 40 });
    assert_eq!(SearchInterval::start(39).next_probe(), None);
    assert_eq!(SearchInterval::start(1).next_probe(), None);
}

#[test]
fn probe_is_the_midpoint() {
    assert_eq!(SearchInterval { low: 40, high: 95 }.next_probe(), Some(67));
    assert_eq!(SearchInterval { low: 40, high: 85 }.next_probe(), Some(62));
    assert_eq!(SearchInterval { low: 40, high: 41 }.next_probe(), Some(40));
    assert_eq!(SearchInterval { low: 40, high: 40 }.next_probe(), Some(40));
    assert_eq!(SearchInterval { low: 41, high: 40 }.next_probe(), None);
}

#[test]
fn advance_takes_the_upper_or_the_lower_half() {
    let i = SearchInterval { low: 40, high: 95 };
    assert_eq!(i.advance(true), SearchInterval { low: 68, high: 95 });
    assert_eq!(i.advance(false), SearchInterval { low: 40, high: 66 });
    let one = SearchInterval { low: 40, high: 40 };
    assert_eq!(one.advance(true).next_probe(), None);
    assert_eq!(one.advance(false).next_probe(), None);
}

#[test]
fn any_search_ends_within_six_probes() {
    for quality in 40u8..=100 {
        for pattern in 0u32..64 {
            let mut interval = SearchInterval::start(quality);
            let mut probes = 0;
            while let Some(q) = interval.next_probe() {
                assert!((40..=95).contains(&q) && q <= quality);
                interval = interval.advance(pattern >> probes & 1 == 1);
                probes += 1;
            }
            assert!(probes <= 6, "{quality} {pattern}");
        }
    }
}

#[test]
fn first_attempt_that_fits_is_returned_as_it_is() {
    let image = noise(64, 48);
    let first = reference(&image, 85);
    let encoded = encode_with_target_size(&image, &config(9000, 85)).unwrap();
    assert_eq!(encoded.data, first);
    assert_eq!(encoded.quality, 85);
    assert_eq!(encoded.encodes, 1);
    assert_eq!(&encoded.data[..2], &[0xFF, 0xD8]);
    assert_ne!(encoded.data.as_slice(), image.data().as_slice());
}

#[test]
fn budget_that_is_just_met_needs_no_search() {
    let image = noise(32, 32);
    let first = reference(&image, 70);
    let kib = (first.len() as u32 + 1023) / 1024;
    let encoded = encode_with_target_size(&image, &config(kib, 70)).unwrap();
    assert_eq!(encoded.data, first);
    assert_eq!(encoded.encodes, 1);
}

#[test]
fn unbounded_budget_skips_the_search() {
    let image = noise(16, 16);
    let encoded = encode_with_target_size(&image, &config(10000, 100)).unwrap();
    assert_eq!(encoded.data, reference(&image, 100));
    assert_eq!((encoded.quality, encoded.encodes), (100, 1));
}

#[test]
fn search_finds_the_highest_quality_that_fits() {
    let image = noise(128, 96);
    let low = reference(&image, 40).len();
    let high = reference(&image, 90).len();
    assert!(low < high);
    let kib = ((low + high) / 2 / 1024) as u32;
    let budget = kib as usize * 1024;
    assert!(low <= budget && budget < high);
    let encoded = encode_with_target_size(&image, &config(kib, 90)).unwrap();
    assert!(encoded.data.len() <= budget);
    assert!((40..90).contains(&encoded.quality));
    assert_eq!(encoded.data, reference(&image, encoded.quality));
    assert!(reference(&image, encoded.quality + 1).len() > budget);
    assert!((2..=7).contains(&encoded.encodes));
}

#[test]
fn search_that_finds_nothing_returns_the_first_attempt() {
    let image = noise(128, 96);
    assert!(reference(&image, 40).len() > 1024);
    let encoded = encode_with_target_size(&image, &config(1, 85)).unwrap();
    assert_eq!(encoded.data, reference(&image, 85));
    assert_eq!(encoded.quality, 85);
    // 46 qualities, always downwards: 62, 50, 44, 41, 40
    assert_eq!(encoded.encodes, 6);
}

#[test]
fn quality_under_the_floor_is_not_searched() {
    let image = noise(64, 64);
    let encoded = encode_with_target_size(&image, &config(1, 30)).unwrap();
    assert_eq!(encoded.data, reference(&image, 30));
    assert_eq!((encoded.quality, encoded.encodes), (30, 1));
}

#[test]
fn search_from_the_full_range_costs_at_most_seven_runs() {
    let image = noise(96, 96);
    let sizes: Vec<usize> = (40u8..=95).map(|q| reference(&image, q).len()).collect();
    for kib in [1u32, sizes[0] as u32 / 1024 + 1, sizes[20] as u32 / 1024, sizes[40] as u32 / 1024, sizes[55] as u32 / 1024] {
        let encoded = encode_with_target_size(&image, &config(kib, 100)).unwrap();
        assert!((1..=7).contains(&encoded.encodes), "{kib}");
        assert_eq!(encoded.data, reference(&image, encoded.quality));
    }
}

#[test]
fn images_the_encoder_cannot_take_are_refused() {
    let empty = RgbBuffer::from_raw(0, 0, Vec::new()).unwrap();
    assert_eq!(encode_with_target_size(&empty, &config(900, 85)).unwrap_err(), ProcessError::Encode);
    let flat = RgbBuffer::from_raw(0, 5, Vec::new()).unwrap();
    assert_eq!(encode_with_target_size(&flat, &config(900, 85)).unwrap_err(), ProcessError::Encode);
    let wide = RgbBuffer::from_raw(65536, 1, vec![0; 65536 * 3]).unwrap();
    assert_eq!(encode_with_target_size(&wide, &config(900, 85)).unwrap_err(), ProcessError::Encode);
    let widest = RgbBuffer::from_raw(65535, 1, vec![0; 65535 * 3]).unwrap();
    assert!(encode_with_target_size(&widest, &config(900, 85)).is_ok());
}
