//! Table-driven bit-exact decoding tests: every button, encoder and pot.

use x1_control::events::{ButtonId, EncoderId, PotId};
use x1_control::state::X1State;

const FRAME_LEN: usize = 24;

fn all_button_bits() -> Vec<(usize, u8, ButtonId)> {
    // (byte offset in the frame, bit offset, decoded field id)
    vec![
        (4, 4, ButtonId::Deck1On),
        (5, 0, ButtonId::Deck2On),
        (4, 5, ButtonId::Deck1_1),
        (5, 1, ButtonId::Deck2_1),
        (4, 6, ButtonId::Deck1_2),
        (5, 2, ButtonId::Deck2_2),
        (4, 7, ButtonId::Deck1_3),
        (5, 3, ButtonId::Deck2_3),
        (4, 0, ButtonId::Deck1EncLoad),
        (5, 4, ButtonId::Shift),
        (4, 1, ButtonId::Deck2EncLoad),
        (2, 1, ButtonId::Deck1Fx1),
        (2, 0, ButtonId::Deck1Fx2),
        (5, 6, ButtonId::Deck2Fx1),
        (5, 5, ButtonId::Deck2Fx2),
        (4, 2, ButtonId::Deck1EncLoop),
        (5, 7, ButtonId::Hotcue),
        (4, 3, ButtonId::Deck2EncLoop),
        (3, 4, ButtonId::Deck1In),
        (1, 3, ButtonId::Deck1Out),
        (2, 4, ButtonId::Deck2In),
        (3, 3, ButtonId::Deck2Out),
        (1, 2, ButtonId::Deck1BeatLeft),
        (3, 5, ButtonId::Deck1BeatRight),
        (3, 2, ButtonId::Deck2BeatLeft),
        (2, 5, ButtonId::Deck2BeatRight),
        (1, 1, ButtonId::Deck1CueRel),
        (3, 6, ButtonId::Deck1CupAbs),
        (3, 1, ButtonId::Deck2CueRel),
        (2, 6, ButtonId::Deck2CupAbs),
        (1, 0, ButtonId::Deck1Play),
        (3, 7, ButtonId::Deck1Sync),
        (3, 0, ButtonId::Deck2Play),
        (2, 7, ButtonId::Deck2Sync),
    ]
}

#[test]
fn every_button_bit_decodes_to_its_field() {
    let table = all_button_bits();
    for &(byte, bit, id) in &table {
        let mut frame = [0u8; FRAME_LEN];
        frame[byte] |= 1u8 << bit;
        let state = X1State::from_buf(&frame);
        for &(_, _, other) in &table {
            let expected = other == id;
            assert_eq!(
                state.button_value(other),
                expected,
                "bit ({byte},{bit}) decoded wrong value for {other:?}"
            );
        }
    }
}

#[test]
fn encoder_nibbles_decode_to_their_fields() {
    let mut frame = [0u8; FRAME_LEN];
    frame[6] = 0x3A; // deck2 browse = high nibble 0x3, deck1 browse = low nibble 0xA
    frame[7] = 0x7F; // deck2 loop = high nibble 0x7, deck1 loop = low nibble 0xF
    let state = X1State::from_buf(&frame);
    assert_eq!(state.encoder_deck1_browse, 0x0A);
    assert_eq!(state.encoder_deck2_browse, 0x03);
    assert_eq!(state.encoder_deck1_loop, 0x0F);
    assert_eq!(state.encoder_deck2_loop, 0x07);
    assert_eq!(state.encoder_value(EncoderId::Deck1Browse), 0x0A);
    assert_eq!(state.encoder_value(EncoderId::Deck2Browse), 0x03);
    assert_eq!(state.encoder_value(EncoderId::Deck1Loop), 0x0F);
    assert_eq!(state.encoder_value(EncoderId::Deck2Loop), 0x07);
}

#[test]
fn pots_decode_big_endian_through_the_permutation() {
    let mut frame = [0u8; FRAME_LEN];
    // Physical slot i is stored big-endian at bytes 8 + 2i and 9 + 2i.
    // Give slot i the value 0x0100 * (i + 1) + i so every slot is distinct.
    for i in 0..8usize {
        frame[8 + 2 * i] = (i + 1) as u8;
        frame[9 + 2 * i] = i as u8;
    }
    let slot = |i: u16| -> u16 { 0x0100 * (i + 1) + i };
    let state = X1State::from_buf(&frame);
    assert_eq!(state.pot_deck1_dry_wet, slot(4));
    assert_eq!(state.pot_deck1_1, slot(6));
    assert_eq!(state.pot_deck1_2, slot(7));
    assert_eq!(state.pot_deck1_3, slot(5));
    assert_eq!(state.pot_deck2_dry_wet, slot(2));
    assert_eq!(state.pot_deck2_1, slot(1));
    assert_eq!(state.pot_deck2_2, slot(0));
    assert_eq!(state.pot_deck2_3, slot(3));
    assert_eq!(state.pot_value(PotId::Deck1DryWet), slot(4));
    assert_eq!(state.pot_value(PotId::Deck2_2), slot(0));
}

#[test]
fn short_frame_decodes_without_failing_and_defaults_missing_fields() {
    let table = all_button_bits();
    // Empty frame: everything defaults.
    let state = X1State::from_buf(&[]);
    for &(_, _, id) in &table {
        assert!(!state.button_value(id));
    }
    assert_eq!(state.encoder_deck1_browse, 0);
    assert_eq!(state.pot_deck2_2, 0);

    // A frame holding only bytes 0..=6: bits in bytes 1..=4 and the byte-6
    // nibbles are present, everything beyond reads as the default.
    let mut short = [0u8; 7];
    short[1] = 0x01; // deck1 play
    short[6] = 0x5C;
    let state = X1State::from_buf(&short);
    assert!(state.button_value(ButtonId::Deck1Play));
    assert_eq!(state.encoder_deck1_browse, 0x0C);
    assert_eq!(state.encoder_deck2_browse, 0x05);
    assert_eq!(state.encoder_deck1_loop, 0); // byte 7 missing
    assert_eq!(state.pot_deck2_2, 0); // bytes 8..=9 missing

    // A pot needs both of its bytes: a 9-byte frame reads physical slot 0
    // as 0, a 10-byte frame reads its two bytes big-endian.
    let mut nine = [0u8; 9];
    nine[8] = 0x12;
    assert_eq!(X1State::from_buf(&nine).pot_deck2_2, 0);
    let mut ten = [0u8; 10];
    ten[8] = 0x12;
    ten[9] = 0x34;
    assert_eq!(X1State::from_buf(&ten).pot_deck2_2, 0x1234);
}

#[test]
fn default_snapshot_is_all_released_and_zero() {
    let state = X1State::default();
    let empty = X1State::from_buf(&[]);
    assert_eq!(state, empty);
    assert!(!state.button_shift);
    assert_eq!(state.pot_deck1_dry_wet, 0);
}
