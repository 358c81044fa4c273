use image_compressor::analysis::{
    classify, luma, luma_statistics, to_luma, ContentClass, ImageFeatures, ENTROPY_ONE,
};
use image_compressor::buffer::RgbaBuffer;

#[test]
fn luma_weights_the_channels() {
    assert_eq!(luma(255, 255, 255), 255);
    assert_eq!(luma(0, 0, 0), 0);
    assert_eq!(luma(255, 0, 0), 54);
    assert_eq!(luma(0, 255, 0), 182);
    assert_eq!(luma(0, 0, 255), 18);
    assert_eq!(luma(10, 20, 30), 18);
}

#[test]
fn to_luma_ignores_alpha() {
    let image = RgbaBuffer::from_raw(2, 1, vec![255, 0, 0, 7, 0, 255, 0, 200]).unwrap();
    assert_eq!(to_luma(&image), vec![54, 182]);
}

#[test]
fn statistics_count_every_sample() {
    let stats = luma_statistics(&vec![3, 3, 200, 0, 3, 255]);
    assert_eq!(stats.histogram.len(), 256);
    assert_eq!(stats.histogram[3], 3);
    assert_eq!(stats.histogram[200], 1);
    assert_eq!(stats.histogram[0], 1);
    assert_eq!(stats.histogram[255], 1);
    assert_eq!(stats.histogram[1], 0);
    assert_eq!(stats.histogram.iter().sum::<u64>(), 6);
    assert_eq!((stats.min, stats.max, stats.total), (0, 255, 6));
    assert_eq!(stats.spread(), 255);
}

#[test]
fn statistics_of_no_samples() {
    let stats = luma_statistics(&vec![]);
    assert_eq!((stats.min, stats.max, stats.total), (255, 0, 0));
    assert_eq!(stats.spread(), 0);
    assert!(stats.histogram.iter().all(|&c| c == 0));
}

#[test]
fn statistics_of_one_level() {
    let stats = luma_statistics(&vec![77; 1000]);
    assert_eq!((stats.min, stats.max, stats.total), (77, 77, 1000));
    assert_eq!(stats.histogram[77], 1000);
    assert_eq!(stats.spread(), 0);
}

fn bits(entropy: f64) -> u32 {
    (entropy * ENTROPY_ONE as f64) as u32
}

#[test]
fn entropy_unit_has_22_binary_places() {
    assert_eq!(ENTROPY_ONE, 1 << 22);
    assert_eq!(bits(6.5), 27_262_976);
    assert_eq!(bits(7.5), 31_457_280);
}

#[test]
fn graphic_needs_low_entropy_and_high_contrast() {
    let f = classify(bits(6.0), 150);
    assert_eq!(
        f,
        ImageFeatures { entropy: bits(6.0), is_graphic: true, is_portrait: false, is_landscape: false }
    );
    assert_eq!(f.class(), ContentClass::Graphic);
    // contrast of exactly 0.4 is not over 0.4
    assert!(!classify(bits(6.0), 102).is_graphic);
    assert!(classify(bits(6.0), 103).is_graphic);
    // entropy of exactly 6.5 is not under 6.5
    assert!(!classify(bits(6.5), 150).is_graphic);
    assert!(classify(bits(6.5) - 1, 150).is_graphic);
}

#[test]
fn portrait_bounds_are_inclusive() {
    assert!(classify(bits(6.5), 51).is_portrait);
    assert!(classify(bits(7.5), 153).is_portrait);
    assert!(!classify(bits(6.5) - 1, 100).is_portrait);
    assert!(!classify(bits(7.5) + 1, 100).is_portrait);
    assert!(!classify(bits(7.0), 50).is_portrait);
    assert!(!classify(bits(7.0), 154).is_portrait);
}

#[test]
fn landscape_bounds_are_exclusive() {
    assert!(classify(bits(7.0) + 1, 101).is_landscape);
    assert!(!classify(bits(7.0), 101).is_landscape);
    assert!(!classify(bits(7.0) + 1, 102).is_landscape);
}

#[test]
fn entropy_just_beside_a_bound_lands_on_its_side() {
    // the 32-bit floats next to 6.5, 7.0 and 7.5 are whole numbers of units
    let below = |x: f32| f32::from_bits(x.to_bits() - 1);
    let above = |x: f32| f32::from_bits(x.to_bits() + 1);
    let unit = |x: f32| {
        let scaled = x as f64 * ENTROPY_ONE as f64;
        assert_eq!(scaled.fract(), 0.0);
        scaled as u32
    };
    assert!(classify(unit(below(6.5)), 150).is_graphic);
    assert!(!classify(unit(6.5), 150).is_graphic);
    assert!(!classify(unit(below(6.5)), 100).is_portrait);
    assert!(classify(unit(7.5), 100).is_portrait);
    assert!(!classify(unit(above(7.5)), 100).is_portrait);
    assert!(!classify(unit(7.0), 50).is_landscape);
    assert!(classify(unit(above(7.0)), 50).is_landscape);
}

#[test]
fn overlapping_rules_are_decided_in_order() {
    let f = classify(bits(7.25), 89);
    assert!(f.is_portrait && f.is_landscape && !f.is_graphic);
    assert_eq!(f.class(), ContentClass::Portrait);

    let f = classify(bits(7.3), 40);
    assert!(!f.is_portrait && f.is_landscape);
    assert_eq!(f.class(), ContentClass::Landscape);

    let f = classify(bits(5.0), 50);
    assert!(!f.is_graphic && !f.is_portrait && !f.is_landscape);
    assert_eq!(f.class(), ContentClass::Other);
}
