//! Edge-dispatch tests: minimal diffs, deterministic ordering, baseline
//! behaviour of the first frame, and modifier capture.

use x1_control::dispatch::{diff_events, ControllerCore};
use x1_control::events::{ButtonEventKind, ButtonId, EncoderId, Event, PotId};
use x1_control::state::X1State;

const FRAME_LEN: usize = 24;

fn decode(frame: &[u8]) -> X1State {
    X1State::from_buf(frame)
}

#[test]
fn identical_snapshots_diff_to_nothing() {
    let mut frame = [0u8; FRAME_LEN];
    frame[1] = 0xA5;
    frame[6] = 0x42;
    frame[9] = 0x17;
    let a = decode(&frame);
    let b = decode(&frame);
    assert_eq!(diff_events(&a, &b), vec![]);
}

#[test]
fn single_button_press_diffs_to_one_pressed_event() {
    let prev = decode(&[0u8; FRAME_LEN]);
    let mut frame = [0u8; FRAME_LEN];
    frame[1] = 0x01; // deck1 play
    let cur = decode(&frame);
    let events = diff_events(&prev, &cur);
    assert_eq!(events.len(), 1);
    match events[0] {
        Event::Button(ev) => {
            assert_eq!(ev.id, ButtonId::Deck1Play);
            assert_eq!(ev.kind, ButtonEventKind::Pressed);
            assert!(!ev.modifiers.shift);
        }
        other => panic!("expected a button event, got {other:?}"),
    }
    // The opposite edge is a release.
    let events = diff_events(&cur, &prev);
    assert_eq!(events.len(), 1);
    match events[0] {
        Event::Button(ev) => {
            assert_eq!(ev.id, ButtonId::Deck1Play);
            assert_eq!(ev.kind, ButtonEventKind::Released);
        }
        other => panic!("expected a button event, got {other:?}"),
    }
}

#[test]
fn events_come_in_fixed_category_and_field_order() {
    let prev = decode(&[0u8; FRAME_LEN]);
    let mut frame = [0u8; FRAME_LEN];
    frame[1] = 0x01; // deck1 play (button, late in button order)
    frame[5] = 0x10; // shift (button, earlier in button order)
    frame[7] = 0x0F; // deck1 loop encoder
    frame[8] = 0x01;
    frame[9] = 0x00; // physical pot slot 0 = deck2_2
    let cur = decode(&frame);
    let events = diff_events(&prev, &cur);
    assert_eq!(events.len(), 4);
    // Buttons first, in enumeration order (Shift before Deck1Play), then
    // encoders, then pots.
    match events[0] {
        Event::Button(ev) => assert_eq!(ev.id, ButtonId::Shift),
        other => panic!("expected a button event, got {other:?}"),
    }
    match events[1] {
        Event::Button(ev) => assert_eq!(ev.id, ButtonId::Deck1Play),
        other => panic!("expected a button event, got {other:?}"),
    }
    match events[2] {
        Event::Encoder(ev) => {
            assert_eq!(ev.id, EncoderId::Deck1Loop);
            assert_eq!(ev.value, 0x0F);
            assert_eq!(ev.previous, 0);
        }
        other => panic!("expected an encoder event, got {other:?}"),
    }
    match events[3] {
        Event::Pot(ev) => {
            assert_eq!(ev.id, PotId::Deck2_2);
            assert_eq!(ev.value, 0x0100);
            assert_eq!(ev.previous, 0);
        }
        other => panic!("expected a pot event, got {other:?}"),
    }
}

#[test]
fn modifiers_are_read_from_the_current_snapshot() {
    // Shift is held in the current snapshot only; every event of the diff,
    // including the shift edge itself, carries shift = true.
    let prev = decode(&[0u8; FRAME_LEN]);
    let mut frame = [0u8; FRAME_LEN];
    frame[5] = 0x10; // shift
    frame[1] = 0x01; // deck1 play
    let cur = decode(&frame);
    for event in diff_events(&prev, &cur) {
        match event {
            Event::Button(ev) => assert!(ev.modifiers.shift),
            other => panic!("expected a button event, got {other:?}"),
        }
    }
    // And releases read from the (shift-free) newer snapshot.
    for event in diff_events(&cur, &prev) {
        match event {
            Event::Button(ev) => assert!(!ev.modifiers.shift),
            other => panic!("expected a button event, got {other:?}"),
        }
    }
}

#[test]
fn first_frame_emits_no_events_and_forces_a_flush() {
    let mut core = ControllerCore::new();
    // However busy the first frame is, it only records the baseline.
    let mut frame = [0u8; FRAME_LEN];
    frame[1] = 0xFF;
    frame[6] = 0x99;
    frame[15] = 0x44;
    let events = core.on_frame(&frame);
    assert_eq!(events, vec![]);
    assert!(core.initialized);
    assert!(core.leds.needs_flush());
    assert_eq!(*core.last_state(), X1State::from_buf(&frame));

    // The second frame diffs against the recorded baseline.
    let mut frame2 = frame;
    frame2[1] ^= 0x01; // release deck1 play
    let events = core.on_frame(&frame2);
    assert_eq!(events.len(), 1);
    match events[0] {
        Event::Button(ev) => {
            assert_eq!(ev.id, ButtonId::Deck1Play);
            assert_eq!(ev.kind, ButtonEventKind::Released);
        }
        other => panic!("expected a button event, got {other:?}"),
    }

    // An unchanged third frame emits nothing.
    assert_eq!(core.on_frame(&frame2), vec![]);
}

#[test]
fn core_led_writes_mark_dirty_and_ignore_out_of_range() {
    let mut core = ControllerCore::new();
    let _ = core.on_frame(&[0u8; FRAME_LEN]);
    core.leds.complete_flush(true);
    assert!(!core.leds.needs_flush());

    core.set_led_raw(3, 0x55);
    assert_eq!(core.leds.leds[3], 0x55);
    assert!(core.leds.needs_flush());

    core.leds.complete_flush(true);
    core.set_led_raw(32, 0x55); // out of range: silently ignored
    assert!(!core.leds.needs_flush());

    core.set_led_pressed(7, true);
    assert_eq!(core.leds.leds[7], 0x7F);
    core.set_led_pressed(7, false);
    assert_eq!(core.leds.leds[7], 0x05);
}
