//! LED buffer tests: baseline contents, bounded writes, and the
//! dirty-flag/flush handshake.

use x1_control::leds::{LedHandle, LED_BRIGHT, LED_COUNT, LED_DIM, LED_SLOT0_BASE};

/// Drive one `flush()` cycle the way the poll loop does, against a counter
/// standing in for the device: write only when dirty, then report the
/// outcome.
fn flush(h: &mut LedHandle, writes: &mut usize, write_ok: bool) {
    if h.needs_flush() {
        *writes += 1;
        h.complete_flush(write_ok);
    }
}

#[test]
fn new_buffer_has_baseline_intensities_and_is_dirty() {
    let h = LedHandle::new();
    assert_eq!(h.leds.len(), LED_COUNT);
    assert_eq!(h.leds[0], LED_SLOT0_BASE);
    for i in 1..LED_COUNT {
        assert_eq!(h.leds[i], LED_DIM);
    }
    assert!(h.dirty);
}

#[test]
fn set_raw_writes_in_range_and_ignores_out_of_range() {
    let mut h = LedHandle::new();
    h.complete_flush(true);
    assert!(!h.dirty);

    h.set_raw(31, 0x33);
    assert_eq!(h.leds[31], 0x33);
    assert!(h.dirty);

    h.complete_flush(true);
    h.set_raw(32, 0x44); // one past the end: silently ignored
    h.set_raw(usize::MAX, 0x44);
    assert!(!h.dirty);
    assert_eq!(h.leds[31], 0x33);
}

#[test]
fn set_pressed_maps_to_bright_and_dim() {
    let mut h = LedHandle::new();
    h.set_pressed(5, true);
    assert_eq!(h.leds[5], LED_BRIGHT);
    h.set_pressed(5, false);
    assert_eq!(h.leds[5], LED_DIM);
}

#[test]
fn two_flushes_without_a_set_perform_at_most_one_write() {
    let mut h = LedHandle::new();
    let mut writes: usize = 0;
    flush(&mut h, &mut writes, true);
    flush(&mut h, &mut writes, true);
    assert_eq!(writes, 1);

    // A new set re-arms exactly one more write.
    h.set_raw(2, 0x10);
    flush(&mut h, &mut writes, true);
    flush(&mut h, &mut writes, true);
    assert_eq!(writes, 2);
}

#[test]
fn failed_write_leaves_the_buffer_dirty_for_a_retry() {
    let mut h = LedHandle::new();
    let mut writes: usize = 0;
    flush(&mut h, &mut writes, false);
    assert!(h.dirty);
    assert_eq!(writes, 1);
    // The next cycle retries the same full-buffer write and clears the flag.
    flush(&mut h, &mut writes, true);
    assert!(!h.dirty);
    assert_eq!(writes, 2);
}
