use hadeda::window::{SampleBuffer, SAMPLE_COUNT};

#[test]
fn buffer_starts_zeroed_at_slot_zero() {
    let buffer = SampleBuffer::new();
    assert_eq!(buffer.cursor(), 0);
    assert_eq!(buffer.samples().len(), 512);
    assert!(buffer.samples().iter().all(|&sample| sample == 0));
    assert!(!buffer.on_last_slot());
}

#[test]
fn capacity_is_512() {
    assert_eq!(SAMPLE_COUNT, 512);
}

#[test]
fn store_writes_under_cursor_without_moving_it() {
    let mut buffer = SampleBuffer::new();
    buffer.store(7);
    assert_eq!(buffer.cursor(), 0);
    assert_eq!(buffer.samples()[0], 7);
    buffer.store(8);
    assert_eq!(buffer.samples()[0], 8);
    assert_eq!(buffer.samples()[1], 0);
}

#[test]
fn advance_moves_one_slot_and_keeps_samples() {
    let mut buffer = SampleBuffer::new();
    buffer.store(3);
    assert!(!buffer.advance());
    assert_eq!(buffer.cursor(), 1);
    buffer.store(4);
    assert_eq!(&buffer.samples()[..3], &[3, 4, 0]);
}

#[test]
fn advance_wraps_after_last_slot() {
    let mut buffer = SampleBuffer::new();
    for step in 0..511 {
        assert!(!buffer.advance(), "wrapped early at step {}", step);
    }
    assert_eq!(buffer.cursor(), 511);
    assert!(buffer.on_last_slot());
    assert!(buffer.advance());
    assert_eq!(buffer.cursor(), 0);
}

#[test]
fn cursor_stays_in_window_over_many_cycles() {
    let mut buffer = SampleBuffer::new();
    for step in 0..(5 * 512 + 17) {
        assert!(buffer.cursor() < SAMPLE_COUNT);
        assert_eq!(buffer.cursor(), step % 512);
        buffer.store(step as u32);
        buffer.advance();
    }
    assert_eq!(buffer.cursor(), 17);
    assert_eq!(buffer.samples()[16], (5 * 512 + 16) as u32);
    assert_eq!(buffer.samples()[17], (4 * 512 + 17) as u32);
}
