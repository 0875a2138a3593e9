use hadeda::extractor::{Recorded, SpectralExtractor};
use hadeda::spectrum::BIN_COUNT;

fn ramp(offset: u32) -> [u32; 256] {
    let mut magnitudes = [0u32; 256];
    for (index, slot) in magnitudes.iter_mut().enumerate() {
        *slot = offset + index as u32;
    }
    magnitudes
}

#[test]
fn fresh_extractor_is_zeroed() {
    let extractor = SpectralExtractor::new();
    assert_eq!(extractor.cursor(), 0);
    assert!(!extractor.transform_due());
    assert!(extractor.window().iter().all(|&sample| sample == 0));
    for index in 0..256 {
        assert_eq!(extractor.frame().bin(index), Some(0));
    }
    assert_eq!(extractor.frame().bin(256), None);
}

#[test]
fn first_window_reports_zero_until_the_last_slot() {
    let mut extractor = SpectralExtractor::new();
    for count in 0..511u32 {
        assert_eq!(extractor.record(count + 100), Recorded::Reported(0));
        assert_eq!(extractor.cursor(), count as usize + 1);
    }
    assert_eq!(extractor.record(611), Recorded::TransformDue);
    assert_eq!(extractor.cursor(), 511);
    assert!(extractor.transform_due());
    assert_eq!(extractor.window()[0], 100);
    assert_eq!(extractor.window()[511], 611);
}

#[test]
fn sample_is_refused_while_transform_is_due() {
    let mut extractor = SpectralExtractor::new();
    for _ in 0..512 {
        extractor.record(1);
    }
    assert_eq!(extractor.record(99), Recorded::Busy);
    assert_eq!(extractor.cursor(), 511);
    assert_eq!(extractor.window()[511], 1);
}

#[test]
fn magnitudes_are_ignored_while_none_are_due() {
    let mut extractor = SpectralExtractor::new();
    assert_eq!(extractor.complete(ramp(5)), None);
    extractor.record(1);
    assert_eq!(extractor.complete(ramp(5)), None);
    assert_eq!(extractor.cursor(), 1);
    for index in 0..256 {
        assert_eq!(extractor.frame().bin(index), Some(0));
    }
}

#[test]
fn completion_replaces_whole_frame_and_wraps_cursor() {
    let mut extractor = SpectralExtractor::new();
    for _ in 0..512 {
        extractor.record(1);
    }
    // the last slot is 511, and 511 mod 256 is 255
    assert_eq!(extractor.complete(ramp(1000)), Some(1255));
    assert_eq!(extractor.cursor(), 0);
    assert!(!extractor.transform_due());
    for index in 0..256 {
        assert_eq!(extractor.frame().bin(index), Some(1000 + index as u32));
    }
}

#[test]
fn reported_bin_follows_cursor_modulo_bin_count() {
    let mut extractor = SpectralExtractor::new();
    for _ in 0..512 {
        extractor.record(1);
    }
    extractor.complete(ramp(1000));
    for cursor in 0..511usize {
        let expected = 1000 + (cursor % BIN_COUNT) as u32;
        assert_eq!(extractor.record(2), Recorded::Reported(expected), "cursor {}", cursor);
    }
    // spot values of the formula
    assert_eq!(300 % BIN_COUNT, 44);
    assert_eq!(extractor.frame().reported(300), 1044);
    assert_eq!(extractor.frame().reported(255), 1255);
    assert_eq!(extractor.frame().reported(256), 1000);
}

#[test]
fn frame_is_recomputed_once_per_window() {
    let mut extractor = SpectralExtractor::new();
    let mut stored = 0usize;
    let mut recomputed = 0usize;
    for round in 0..(3 * 512 + 100) {
        match extractor.record(round as u32) {
            Recorded::Reported(_) => stored += 1,
            Recorded::TransformDue => {
                stored += 1;
                assert_eq!(stored % 512, 0);
                assert!(extractor.complete(ramp(round as u32)).is_some());
                assert!(extractor.complete(ramp(0)).is_none());
                recomputed += 1;
            }
            Recorded::Busy => panic!("extractor was busy at round {}", round),
        }
        assert_eq!(recomputed, stored / 512);
        assert_eq!(extractor.cursor(), stored % 512);
    }
    assert_eq!(recomputed, 3);
}
