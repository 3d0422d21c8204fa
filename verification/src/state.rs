//! Device snapshot and bit-level frame decoding.
//!
//! A raw input frame is 24 bytes: boolean button fields at fixed (byte, bit)
//! positions across bytes 1 to 4, four 4-bit encoder nibbles packed two per
//! byte in bytes 6 and 7, and eight big-endian 16-bit potentiometer values at
//! bytes 8 to 23, remapped into named slots through a fixed permutation.
//! Decoding never fails: any field whose bytes lie beyond the end of the
//! buffer reads as `false` or `0`.

use vstd::prelude::*;

verus! {

/// An immutable capture of every decoded field of the control surface.
#[derive(Clone, Copy, Debug, PartialEq, Eq, Structural)]
pub struct X1State {
    // Buttons
    pub button_deck1_on: bool,
    pub button_deck2_on: bool,
    pub button_deck1_1: bool,
    pub button_deck2_1: bool,
    pub button_deck1_2: bool,
    pub button_deck2_2: bool,
    pub button_deck1_3: bool,
    pub button_deck2_3: bool,
    pub button_deck1_enc_load: bool,
    pub button_shift: bool,
    pub button_deck2_enc_load: bool,
    pub button_deck1_fx1: bool,
    pub button_deck1_fx2: bool,
    pub button_deck2_fx1: bool,
    pub button_deck2_fx2: bool,
    pub button_deck1_enc_loop: bool,
    pub button_hotcue: bool,
    pub button_deck2_enc_loop: bool,
    pub button_deck1_in: bool,
    pub button_deck1_out: bool,
    pub button_deck2_in: bool,
    pub button_deck2_out: bool,
    pub button_deck1_beat_left: bool,
    pub button_deck1_beat_right: bool,
    pub button_deck2_beat_left: bool,
    pub button_deck2_beat_right: bool,
    pub button_deck1_cue_rel: bool,
    pub button_deck1_cup_abs: bool,
    pub button_deck2_cue_rel: bool,
    pub button_deck2_cup_abs: bool,
    pub button_deck1_play: bool,
    pub button_deck1_sync: bool,
    pub button_deck2_play: bool,
    pub button_deck2_sync: bool,
    // Encoders (each a nibble, 0..=15)
    pub encoder_deck1_browse: u8,
    pub encoder_deck2_browse: u8,
    pub encoder_deck1_loop: u8,
    pub encoder_deck2_loop: u8,
    // Named pots
    pub pot_deck1_dry_wet: u16,
    pub pot_deck1_1: u16,
    pub pot_deck1_2: u16,
    pub pot_deck1_3: u16,
    pub pot_deck2_dry_wet: u16,
    pub pot_deck2_1: u16,
    pub pot_deck2_2: u16,
    pub pot_deck2_3: u16,
}

/// The button bit at bit position `off` of byte `1 + group`, or `false` when
/// that byte lies beyond the end of the frame.
pub open spec fn spec_bit(s: Seq<u8>, group: int, off: u8) -> bool
    recommends
        off < 8,
{
    1 + group < s.len() && ((s[1 + group] >> off) & 1) != 0
}

/// The high or low nibble of byte `idx`, or `0` when that byte lies beyond
/// the end of the frame.
pub open spec fn spec_nibble(s: Seq<u8>, idx: int, high: bool) -> u8 {
    if 0 <= idx < s.len() {
        if high {
            s[idx] >> 4
        } else {
            s[idx] & 0x0F
        }
    } else {
        0
    }
}

/// The big-endian 16-bit value of physical pot slot `i`, read from bytes
/// `8 + 2 * i` and `9 + 2 * i`, or `0` when they lie beyond the end of the
/// frame.
pub open spec fn spec_pot_raw(s: Seq<u8>, i: int) -> u16 {
    let idx = 8 + 2 * i;
    if idx + 1 < s.len() {
        ((s[idx] as int) * 256 + (s[idx + 1] as int)) as u16
    } else {
        0
    }
}

/// The snapshot decoded from a raw frame, field by field.
pub open spec fn spec_decode(s: Seq<u8>) -> X1State {
    X1State {
        button_deck1_on: spec_bit(s, 3, 4),
        button_deck2_on: spec_bit(s, 4, 0),
        button_deck1_1: spec_bit(s, 3, 5),
        button_deck2_1: spec_bit(s, 4, 1),
        button_deck1_2: spec_bit(s, 3, 6),
        button_deck2_2: spec_bit(s, 4, 2),
        button_deck1_3: spec_bit(s, 3, 7),
        button_deck2_3: spec_bit(s, 4, 3),
        button_deck1_enc_load: spec_bit(s, 3, 0),
        button_shift: spec_bit(s, 4, 4),
        button_deck2_enc_load: spec_bit(s, 3, 1),
        button_deck1_fx1: spec_bit(s, 1, 1),
        button_deck1_fx2: spec_bit(s, 1, 0),
        button_deck2_fx1: spec_bit(s, 4, 6),
        button_deck2_fx2: spec_bit(s, 4, 5),
        button_deck1_enc_loop: spec_bit(s, 3, 2),
        button_hotcue: spec_bit(s, 4, 7),
        button_deck2_enc_loop: spec_bit(s, 3, 3),
        button_deck1_in: spec_bit(s, 2, 4),
        button_deck1_out: spec_bit(s, 0, 3),
        button_deck2_in: spec_bit(s, 1, 4),
        button_deck2_out: spec_bit(s, 2, 3),
        button_deck1_beat_left: spec_bit(s, 0, 2),
        button_deck1_beat_right: spec_bit(s, 2, 5),
        button_deck2_beat_left: spec_bit(s, 2, 2),
        button_deck2_beat_right: spec_bit(s, 1, 5),
        button_deck1_cue_rel: spec_bit(s, 0, 1),
        button_deck1_cup_abs: spec_bit(s, 2, 6),
        button_deck2_cue_rel: spec_bit(s, 2, 1),
        button_deck2_cup_abs: spec_bit(s, 1, 6),
        button_deck1_play: spec_bit(s, 0, 0),
        button_deck1_sync: spec_bit(s, 2, 7),
        button_deck2_play: spec_bit(s, 2, 0),
        button_deck2_sync: spec_bit(s, 1, 7),
        encoder_deck1_browse: spec_nibble(s, 6, false),
        encoder_deck2_browse: spec_nibble(s, 6, true),
        encoder_deck1_loop: spec_nibble(s, 7, false),
        encoder_deck2_loop: spec_nibble(s, 7, true),
        pot_deck1_dry_wet: spec_pot_raw(s, 4),
        pot_deck1_1: spec_pot_raw(s, 6),
        pot_deck1_2: spec_pot_raw(s, 7),
        pot_deck1_3: spec_pot_raw(s, 5),
        pot_deck2_dry_wet: spec_pot_raw(s, 2),
        pot_deck2_1: spec_pot_raw(s, 1),
        pot_deck2_2: spec_pot_raw(s, 0),
        pot_deck2_3: spec_pot_raw(s, 3),
    }
}

/// The snapshot with every button released and every value zero.
pub open spec fn spec_default_state() -> X1State {
    X1State {
        button_deck1_on: false,
        button_deck2_on: false,
        button_deck1_1: false,
        button_deck2_1: false,
        button_deck1_2: false,
        button_deck2_2: false,
        button_deck1_3: false,
        button_deck2_3: false,
        button_deck1_enc_load: false,
        button_shift: false,
        button_deck2_enc_load: false,
        button_deck1_fx1: false,
        button_deck1_fx2: false,
        button_deck2_fx1: false,
        button_deck2_fx2: false,
        button_deck1_enc_loop: false,
        button_hotcue: false,
        button_deck2_enc_loop: false,
        button_deck1_in: false,
        button_deck1_out: false,
        button_deck2_in: false,
        button_deck2_out: false,
        button_deck1_beat_left: false,
        button_deck1_beat_right: false,
        button_deck2_beat_left: false,
        button_deck2_beat_right: false,
        button_deck1_cue_rel: false,
        button_deck1_cup_abs: false,
        button_deck2_cue_rel: false,
        button_deck2_cup_abs: false,
        button_deck1_play: false,
        button_deck1_sync: false,
        button_deck2_play: false,
        button_deck2_sync: false,
        encoder_deck1_browse: 0,
        encoder_deck2_browse: 0,
        encoder_deck1_loop: 0,
        encoder_deck2_loop: 0,
        pot_deck1_dry_wet: 0,
        pot_deck1_1: 0,
        pot_deck1_2: 0,
        pot_deck1_3: 0,
        pot_deck2_dry_wet: 0,
        pot_deck2_1: 0,
        pot_deck2_2: 0,
        pot_deck2_3: 0,
    }
}

/// Law: decoding degrades gracefully. A frame too short to hold any field --
/// in particular the empty frame -- decodes to the all-default snapshot, and
/// never to an error.
pub proof fn lemma_decode_short_is_default(s: Seq<u8>)
    requires
        s.len() <= 1,
    ensures
        spec_decode(s) == spec_default_state(),
{
}

/// Law: however short the frame, every field whose source bytes lie beyond
/// its end reads as the default -- `false` for a button bit, `0` for a
/// nibble, and `0` for a pot whose two bytes (and the byte after them) are
/// not all covered.
pub proof fn lemma_missing_fields_default(s: Seq<u8>)
    ensures
        forall|g: int, o: u8| 1 + g >= s.len() ==> !spec_bit(s, g, o),
        forall|idx: int, high: bool| idx >= s.len() ==> spec_nibble(s, idx, high) == 0,
        forall|i: int| 8 + 2 * i + 1 >= s.len() ==> spec_pot_raw(s, i) == 0,
{
}

/// Read the button bit at bit position `off` of byte `1 + group`, or `false`
/// when that byte lies beyond the end of the frame.
fn read_bit(buf: &[u8], group: usize, off: u8) -> (r: bool)
    requires
        group < 8,
        off < 8,
    ensures
        r == spec_bit(buf@, group as int, off),
{
    let idx = 1 + group;
    if idx < buf.len() {
        ((buf[idx] >> off) & 1) != 0
    } else {
        false
    }
}

/// Read the high or low nibble of byte `idx`, or `0` when that byte lies
/// beyond the end of the frame.
fn read_nibble(buf: &[u8], idx: usize, high: bool) -> (r: u8)
    ensures
        r == spec_nibble(buf@, idx as int, high),
{
    if idx < buf.len() {
        if high {
            buf[idx] >> 4
        } else {
            buf[idx] & 0x0F
        }
    } else {
        0
    }
}

/// Read the big-endian 16-bit value of physical pot slot `i`, or `0` when its
/// bytes lie beyond the end of the frame.
fn read_pot(buf: &[u8], i: usize) -> (r: u16)
    requires
        i < 8,
    ensures
        r == spec_pot_raw(buf@, i as int),
{
    let idx = 8 + 2 * i;
    if idx + 1 < buf.len() {
        (buf[idx] as u16) * 256 + (buf[idx + 1] as u16)
    } else {
        0
    }
}

impl X1State {
    /// Parse a snapshot directly from a raw input frame. A frame shorter than
    /// expected is not an error: fields beyond its end default to `false`
    /// or `0`.
    pub fn from_buf(buf: &[u8]) -> (r: X1State)
        ensures
            r == spec_decode(buf@),
    {
        X1State {
            button_deck1_on: read_bit(buf, 3, 4),
            button_deck2_on: read_bit(buf, 4, 0),
            button_deck1_1: read_bit(buf, 3, 5),
            button_deck2_1: read_bit(buf, 4, 1),
            button_deck1_2: read_bit(buf, 3, 6),
            button_deck2_2: read_bit(buf, 4, 2),
            button_deck1_3: read_bit(buf, 3, 7),
            button_deck2_3: read_bit(buf, 4, 3),
            button_deck1_enc_load: read_bit(buf, 3, 0),
            button_shift: read_bit(buf, 4, 4),
            button_deck2_enc_load: read_bit(buf, 3, 1),
            button_deck1_fx1: read_bit(buf, 1, 1),
            button_deck1_fx2: read_bit(buf, 1, 0),
            button_deck2_fx1: read_bit(buf, 4, 6),
            button_deck2_fx2: read_bit(buf, 4, 5),
            button_deck1_enc_loop: read_bit(buf, 3, 2),
            button_hotcue: read_bit(buf, 4, 7),
            button_deck2_enc_loop: read_bit(buf, 3, 3),
            button_deck1_in: read_bit(buf, 2, 4),
            button_deck1_out: read_bit(buf, 0, 3),
            button_deck2_in: read_bit(buf, 1, 4),
            button_deck2_out: read_bit(buf, 2, 3),
            button_deck1_beat_left: read_bit(buf, 0, 2),
            button_deck1_beat_right: read_bit(buf, 2, 5),
            button_deck2_beat_left: read_bit(buf, 2, 2),
            button_deck2_beat_right: read_bit(buf, 1, 5),
            button_deck1_cue_rel: read_bit(buf, 0, 1),
            button_deck1_cup_abs: read_bit(buf, 2, 6),
            button_deck2_cue_rel: read_bit(buf, 2, 1),
            button_deck2_cup_abs: read_bit(buf, 1, 6),
            button_deck1_play: read_bit(buf, 0, 0),
            button_deck1_sync: read_bit(buf, 2, 7),
            button_deck2_play: read_bit(buf, 2, 0),
            button_deck2_sync: read_bit(buf, 1, 7),
            encoder_deck1_browse: read_nibble(buf, 6, false),
            encoder_deck2_browse: read_nibble(buf, 6, true),
            encoder_deck1_loop: read_nibble(buf, 7, false),
            encoder_deck2_loop: read_nibble(buf, 7, true),
            pot_deck1_dry_wet: read_pot(buf, 4),
            pot_deck1_1: read_pot(buf, 6),
            pot_deck1_2: read_pot(buf, 7),
            pot_deck1_3: read_pot(buf, 5),
            pot_deck2_dry_wet: read_pot(buf, 2),
            pot_deck2_1: read_pot(buf, 1),
            pot_deck2_2: read_pot(buf, 0),
            pot_deck2_3: read_pot(buf, 3),
        }
    }
}

impl Default for X1State {
    /// The all-default snapshot used as the baseline before the first frame.
    fn default() -> (r: X1State)
        ensures
            r == spec_default_state(),
    {
        X1State {
            button_deck1_on: false,
            button_deck2_on: false,
            button_deck1_1: false,
            button_deck2_1: false,
            button_deck1_2: false,
            button_deck2_2: false,
            button_deck1_3: false,
            button_deck2_3: false,
            button_deck1_enc_load: false,
            button_shift: false,
            button_deck2_enc_load: false,
            button_deck1_fx1: false,
            button_deck1_fx2: false,
            button_deck2_fx1: false,
            button_deck2_fx2: false,
            button_deck1_enc_loop: false,
            button_hotcue: false,
            button_deck2_enc_loop: false,
            button_deck1_in: false,
            button_deck1_out: false,
            button_deck2_in: false,
            button_deck2_out: false,
            button_deck1_beat_left: false,
            button_deck1_beat_right: false,
            button_deck2_beat_left: false,
            button_deck2_beat_right: false,
            button_deck1_cue_rel: false,
            button_deck1_cup_abs: false,
            button_deck2_cue_rel: false,
            button_deck2_cup_abs: false,
            button_deck1_play: false,
            button_deck1_sync: false,
            button_deck2_play: false,
            button_deck2_sync: false,
            encoder_deck1_browse: 0,
            encoder_deck2_browse: 0,
            encoder_deck1_loop: 0,
            encoder_deck2_loop: 0,
            pot_deck1_dry_wet: 0,
            pot_deck1_1: 0,
            pot_deck1_2: 0,
            pot_deck1_3: 0,
            pot_deck2_dry_wet: 0,
            pot_deck2_1: 0,
            pot_deck2_2: 0,
            pot_deck2_3: 0,
        }
    }
}

} // verus!
