use image_compressor::config::{ProcessConfig, ProcessMode};
use image_compressor::pipeline::Processor;

fn custom(target_kb: u32, max_dim: u32, quality: u8) -> ProcessConfig {
    ProcessConfig::preset(ProcessMode::Custom, max_dim, quality, target_kb, None, false, false)
}

#[test]
fn validate_clamps_quality_and_dimension() {
    let mut c = custom(0, 0, 0);
    c.validate();
    assert_eq!(c.quality, 1);
    assert_eq!(c.max_dim, 1);
    assert_eq!(c.target_kb, 10000);

    let mut c = custom(900, 20000, 255);
    c.validate();
    assert_eq!(c.quality, 100);
    assert_eq!(c.max_dim, 10000);
    assert_eq!(c.target_kb, 900);
}

#[test]
fn validate_keeps_values_in_range() {
    let mut c = custom(1, 1, 1);
    c.validate();
    assert_eq!((c.target_kb, c.max_dim, c.quality), (1, 1, 1));

    let mut c = custom(50000, 10000, 100);
    c.validate();
    assert_eq!((c.target_kb, c.max_dim, c.quality), (50000, 10000, 100));
}

#[test]
fn validate_result_is_in_range_for_many_inputs() {
    for quality in [0u8, 1, 2, 50, 99, 100, 101, 200, 255] {
        for max_dim in [0u32, 1, 100, 9999, 10000, 10001, u32::MAX] {
            for target_kb in [0u32, 1, 900, 10000, u32::MAX] {
                let mut c = custom(target_kb, max_dim, quality);
                c.validate();
                assert!((1..=100).contains(&c.quality));
                assert!((1..=10000).contains(&c.max_dim));
                assert!(c.target_kb > 0);
                let again = {
                    let mut d = c.clone();
                    d.validate();
                    d
                };
                assert_eq!(again.quality, c.quality);
                assert_eq!(again.max_dim, c.max_dim);
                assert_eq!(again.target_kb, c.target_kb);
            }
        }
    }
}

#[test]
fn validate_leaves_other_fields_alone() {
    let mut c = ProcessConfig::preset(
        ProcessMode::Custom,
        0,
        0,
        0,
        Some(String::from("/out")),
        true,
        true,
    );
    c.validate();
    assert_eq!(c.mode, ProcessMode::Custom);
    assert_eq!(c.output_dir, Some(String::from("/out")));
    assert!(c.overwrite);
    assert!(c.keep_original_name);
}

#[test]
fn presets_fix_the_values_of_the_two_modes() {
    let w = ProcessConfig::preset(ProcessMode::WeChat, 1, 2, 3, None, false, false);
    assert_eq!((w.max_dim, w.quality, w.target_kb), (2048, 85, 900));
    assert_eq!(w.mode, ProcessMode::WeChat);

    let h = ProcessConfig::preset(ProcessMode::HD, 1, 2, 3, None, true, true);
    assert_eq!((h.max_dim, h.quality, h.target_kb), (4096, 95, 5000));
    assert!(h.overwrite && h.keep_original_name);

    let c = ProcessConfig::preset(ProcessMode::Custom, 1234, 77, 321, None, false, false);
    assert_eq!((c.max_dim, c.quality, c.target_kb), (1234, 77, 321));
}

#[test]
fn target_bytes_is_kib() {
    assert_eq!(custom(900, 1, 1).target_bytes(), 921_600);
    assert_eq!(custom(u32::MAX, 1, 1).target_bytes(), 4_294_967_295u64 * 1024);
    assert!(!custom(9999, 1, 1).is_unbounded());
    assert!(custom(10000, 1, 1).is_unbounded());
}

#[test]
fn processor_validates_its_configuration() {
    let p = Processor::new(custom(0, 50000, 0));
    assert_eq!(p.config().quality, 1);
    assert_eq!(p.config().max_dim, 10000);
    assert_eq!(p.config().target_kb, 10000);
}
