//! Edge dispatcher: snapshot diffing and the poll-side controller core.
//!
//! Two snapshots are compared field by field in a fixed enumeration order --
//! all buttons, then all encoders, then all pots -- and one event is produced
//! for each field whose value differs, nothing for the rest. Modifiers are
//! read from the newer snapshot. The very first frame after connecting only
//! records the baseline: it produces no events and forces the LED buffer
//! dirty so the first flush is unconditional.

use vstd::prelude::*;

use crate::events::{
    ButtonEvent, ButtonEventKind, ButtonId, EncoderEvent, EncoderId, Event, Modifiers, PotEvent,
    PotId,
};
use crate::leds::{spec_initial_leds, LedHandle};
use crate::state::{spec_decode, spec_default_state, X1State};

verus! {

/// The button field of a snapshot selected by its identifier.
pub open spec fn spec_button_val(s: X1State, id: ButtonId) -> bool {
    match id {
        ButtonId::Deck1On => s.button_deck1_on,
        ButtonId::Deck2On => s.button_deck2_on,
        ButtonId::Deck1_1 => s.button_deck1_1,
        ButtonId::Deck2_1 => s.button_deck2_1,
        ButtonId::Deck1_2 => s.button_deck1_2,
        ButtonId::Deck2_2 => s.button_deck2_2,
        ButtonId::Deck1_3 => s.button_deck1_3,
        ButtonId::Deck2_3 => s.button_deck2_3,
        ButtonId::Deck1EncLoad => s.button_deck1_enc_load,
        ButtonId::Shift => s.button_shift,
        ButtonId::Deck2EncLoad => s.button_deck2_enc_load,
        ButtonId::Deck1Fx1 => s.button_deck1_fx1,
        ButtonId::Deck1Fx2 => s.button_deck1_fx2,
        ButtonId::Deck2Fx1 => s.button_deck2_fx1,
        ButtonId::Deck2Fx2 => s.button_deck2_fx2,
        ButtonId::Deck1EncLoop => s.button_deck1_enc_loop,
        ButtonId::Hotcue => s.button_hotcue,
        ButtonId::Deck2EncLoop => s.button_deck2_enc_loop,
        ButtonId::Deck1In => s.button_deck1_in,
        ButtonId::Deck1Out => s.button_deck1_out,
        ButtonId::Deck2In => s.button_deck2_in,
        ButtonId::Deck2Out => s.button_deck2_out,
        ButtonId::Deck1BeatLeft => s.button_deck1_beat_left,
        ButtonId::Deck1BeatRight => s.button_deck1_beat_right,
        ButtonId::Deck2BeatLeft => s.button_deck2_beat_left,
        ButtonId::Deck2BeatRight => s.button_deck2_beat_right,
        ButtonId::Deck1CueRel => s.button_deck1_cue_rel,
        ButtonId::Deck1CupAbs => s.button_deck1_cup_abs,
        ButtonId::Deck2CueRel => s.button_deck2_cue_rel,
        ButtonId::Deck2CupAbs => s.button_deck2_cup_abs,
        ButtonId::Deck1Play => s.button_deck1_play,
        ButtonId::Deck1Sync => s.button_deck1_sync,
        ButtonId::Deck2Play => s.button_deck2_play,
        ButtonId::Deck2Sync => s.button_deck2_sync,
    }
}

/// The encoder field of a snapshot selected by its identifier.
pub open spec fn spec_encoder_val(s: X1State, id: EncoderId) -> u8 {
    match id {
        EncoderId::Deck1Browse => s.encoder_deck1_browse,
        EncoderId::Deck2Browse => s.encoder_deck2_browse,
        EncoderId::Deck1Loop => s.encoder_deck1_loop,
        EncoderId::Deck2Loop => s.encoder_deck2_loop,
    }
}

/// The pot field of a snapshot selected by its identifier.
pub open spec fn spec_pot_val(s: X1State, id: PotId) -> u16 {
    match id {
        PotId::Deck1DryWet => s.pot_deck1_dry_wet,
        PotId::Deck1_1 => s.pot_deck1_1,
        PotId::Deck1_2 => s.pot_deck1_2,
        PotId::Deck1_3 => s.pot_deck1_3,
        PotId::Deck2DryWet => s.pot_deck2_dry_wet,
        PotId::Deck2_1 => s.pot_deck2_1,
        PotId::Deck2_2 => s.pot_deck2_2,
        PotId::Deck2_3 => s.pot_deck2_3,
    }
}

/// The modifier keys read from a snapshot.
pub open spec fn spec_modifiers(s: X1State) -> Modifiers {
    Modifiers { shift: s.button_shift }
}

/// The events one button field contributes to a diff: a single transition
/// event when its value changed, nothing otherwise.
pub open spec fn spec_one_button(prev: X1State, cur: X1State, id: ButtonId) -> Seq<Event> {
    if spec_button_val(cur, id) != spec_button_val(prev, id) {
        seq![
            Event::Button(
                ButtonEvent {
                    id,
                    kind: if spec_button_val(cur, id) {
                        ButtonEventKind::Pressed
                    } else {
                        ButtonEventKind::Released
                    },
                    modifiers: spec_modifiers(cur),
                },
            ),
        ]
    } else {
        Seq::empty()
    }
}

/// The events one encoder field contributes to a diff.
pub open spec fn spec_one_encoder(prev: X1State, cur: X1State, id: EncoderId) -> Seq<Event> {
    if spec_encoder_val(cur, id) != spec_encoder_val(prev, id) {
        seq![
            Event::Encoder(
                EncoderEvent {
                    id,
                    value: spec_encoder_val(cur, id),
                    previous: spec_encoder_val(prev, id),
                    modifiers: spec_modifiers(cur),
                },
            ),
        ]
    } else {
        Seq::empty()
    }
}

/// The events one pot field contributes to a diff.
pub open spec fn spec_one_pot(prev: X1State, cur: X1State, id: PotId) -> Seq<Event> {
    if spec_pot_val(cur, id) != spec_pot_val(prev, id) {
        seq![
            Event::Pot(
                PotEvent {
                    id,
                    value: spec_pot_val(cur, id),
                    previous: spec_pot_val(prev, id),
                    modifiers: spec_modifiers(cur),
                },
            ),
        ]
    } else {
        Seq::empty()
    }
}

/// All button events of a diff, in the fixed enumeration order.
pub open spec fn spec_button_events(prev: X1State, cur: X1State) -> Seq<Event> {
    spec_one_button(prev, cur, ButtonId::Deck1On) + spec_one_button(prev, cur, ButtonId::Deck2On)
        + spec_one_button(prev, cur, ButtonId::Deck1_1) + spec_one_button(
        prev,
        cur,
        ButtonId::Deck2_1,
    ) + spec_one_button(prev, cur, ButtonId::Deck1_2) + spec_one_button(
        prev,
        cur,
        ButtonId::Deck2_2,
    ) + spec_one_button(prev, cur, ButtonId::Deck1_3) + spec_one_button(
        prev,
        cur,
        ButtonId::Deck2_3,
    ) + spec_one_button(prev, cur, ButtonId::Deck1EncLoad) + spec_one_button(
        prev,
        cur,
        ButtonId::Shift,
    ) + spec_one_button(prev, cur, ButtonId::Deck2EncLoad) + spec_one_button(
        prev,
        cur,
        ButtonId::Deck1Fx1,
    ) + spec_one_button(prev, cur, ButtonId::Deck1Fx2) + spec_one_button(
        prev,
        cur,
        ButtonId::Deck2Fx1,
    ) + spec_one_button(prev, cur, ButtonId::Deck2Fx2) + spec_one_button(
        prev,
        cur,
        ButtonId::Deck1EncLoop,
    ) + spec_one_button(prev, cur, ButtonId::Hotcue) + spec_one_button(
        prev,
        cur,
        ButtonId::Deck2EncLoop,
    ) + spec_one_button(prev, cur, ButtonId::Deck1In) + spec_one_button(
        prev,
        cur,
        ButtonId::Deck1Out,
    ) + spec_one_button(prev, cur, ButtonId::Deck2In) + spec_one_button(
        prev,
        cur,
        ButtonId::Deck2Out,
    ) + spec_one_button(prev, cur, ButtonId::Deck1BeatLeft) + spec_one_button(
        prev,
        cur,
        ButtonId::Deck1BeatRight,
    ) + spec_one_button(prev, cur, ButtonId::Deck2BeatLeft) + spec_one_button(
        prev,
        cur,
        ButtonId::Deck2BeatRight,
    ) + spec_one_button(prev, cur, ButtonId::Deck1CueRel) + spec_one_button(
        prev,
        cur,
        ButtonId::Deck1CupAbs,
    ) + spec_one_button(prev, cur, ButtonId::Deck2CueRel) + spec_one_button(
        prev,
        cur,
        ButtonId::Deck2CupAbs,
    ) + spec_one_button(prev, cur, ButtonId::Deck1Play) + spec_one_button(
        prev,
        cur,
        ButtonId::Deck1Sync,
    ) + spec_one_button(prev, cur, ButtonId::Deck2Play) + spec_one_button(
        prev,
        cur,
        ButtonId::Deck2Sync,
    )
}

/// All encoder events of a diff, in the fixed enumeration order.
pub open spec fn spec_encoder_events(prev: X1State, cur: X1State) -> Seq<Event> {
    spec_one_encoder(prev, cur, EncoderId::Deck1Browse) + spec_one_encoder(
        prev,
        cur,
        EncoderId::Deck2Browse,
    ) + spec_one_encoder(prev, cur, EncoderId::Deck1Loop) + spec_one_encoder(
        prev,
        cur,
        EncoderId::Deck2Loop,
    )
}

/// All pot events of a diff, in the fixed enumeration order.
pub open spec fn spec_pot_events(prev: X1State, cur: X1State) -> Seq<Event> {
    spec_one_pot(prev, cur, PotId::Deck1DryWet) + spec_one_pot(prev, cur, PotId::Deck1_1)
        + spec_one_pot(prev, cur, PotId::Deck1_2) + spec_one_pot(prev, cur, PotId::Deck1_3)
        + spec_one_pot(prev, cur, PotId::Deck2DryWet) + spec_one_pot(prev, cur, PotId::Deck2_1)
        + spec_one_pot(prev, cur, PotId::Deck2_2) + spec_one_pot(prev, cur, PotId::Deck2_3)
}

/// The complete, deterministically ordered event list of one diff: every
/// changed button, then every changed encoder, then every changed pot.
pub open spec fn spec_events(prev: X1State, cur: X1State) -> Seq<Event> {
    spec_button_events(prev, cur) + spec_encoder_events(prev, cur) + spec_pot_events(prev, cur)
}

impl Modifiers {
    /// The modifier keys read from a snapshot.
    pub fn from_state(state: &X1State) -> (m: Modifiers)
        ensures
            m == spec_modifiers(*state),
    {
        Modifiers { shift: state.button_shift }
    }
}

impl X1State {
    /// The button field selected by its identifier.
    pub fn button_value(&self, id: ButtonId) -> (r: bool)
        ensures
            r == spec_button_val(*self, id),
    {
        match id {
            ButtonId::Deck1On => self.button_deck1_on,
            ButtonId::Deck2On => self.button_deck2_on,
            ButtonId::Deck1_1 => self.button_deck1_1,
            ButtonId::Deck2_1 => self.button_deck2_1,
            ButtonId::Deck1_2 => self.button_deck1_2,
            ButtonId::Deck2_2 => self.button_deck2_2,
            ButtonId::Deck1_3 => self.button_deck1_3,
            ButtonId::Deck2_3 => self.button_deck2_3,
            ButtonId::Deck1EncLoad => self.button_deck1_enc_load,
            ButtonId::Shift => self.button_shift,
            ButtonId::Deck2EncLoad => self.button_deck2_enc_load,
            ButtonId::Deck1Fx1 => self.button_deck1_fx1,
            ButtonId::Deck1Fx2 => self.button_deck1_fx2,
            ButtonId::Deck2Fx1 => self.button_deck2_fx1,
            ButtonId::Deck2Fx2 => self.button_deck2_fx2,
            ButtonId::Deck1EncLoop => self.button_deck1_enc_loop,
            ButtonId::Hotcue => self.button_hotcue,
            ButtonId::Deck2EncLoop => self.button_deck2_enc_loop,
            ButtonId::Deck1In => self.button_deck1_in,
            ButtonId::Deck1Out => self.button_deck1_out,
            ButtonId::Deck2In => self.button_deck2_in,
            ButtonId::Deck2Out => self.button_deck2_out,
            ButtonId::Deck1BeatLeft => self.button_deck1_beat_left,
            ButtonId::Deck1BeatRight => self.button_deck1_beat_right,
            ButtonId::Deck2BeatLeft => self.button_deck2_beat_left,
            ButtonId::Deck2BeatRight => self.button_deck2_beat_right,
            ButtonId::Deck1CueRel => self.button_deck1_cue_rel,
            ButtonId::Deck1CupAbs => self.button_deck1_cup_abs,
            ButtonId::Deck2CueRel => self.button_deck2_cue_rel,
            ButtonId::Deck2CupAbs => self.button_deck2_cup_abs,
            ButtonId::Deck1Play => self.button_deck1_play,
            ButtonId::Deck1Sync => self.button_deck1_sync,
            ButtonId::Deck2Play => self.button_deck2_play,
            ButtonId::Deck2Sync => self.button_deck2_sync,
        }
    }

    /// The encoder field selected by its identifier.
    pub fn encoder_value(&self, id: EncoderId) -> (r: u8)
        ensures
            r == spec_encoder_val(*self, id),
    {
        match id {
            EncoderId::Deck1Browse => self.encoder_deck1_browse,
            EncoderId::Deck2Browse => self.encoder_deck2_browse,
            EncoderId::Deck1Loop => self.encoder_deck1_loop,
            EncoderId::Deck2Loop => self.encoder_deck2_loop,
        }
    }

    /// The pot field selected by its identifier.
    pub fn pot_value(&self, id: PotId) -> (r: u16)
        ensures
            r == spec_pot_val(*self, id),
    {
        match id {
            PotId::Deck1DryWet => self.pot_deck1_dry_wet,
            PotId::Deck1_1 => self.pot_deck1_1,
            PotId::Deck1_2 => self.pot_deck1_2,
            PotId::Deck1_3 => self.pot_deck1_3,
            PotId::Deck2DryWet => self.pot_deck2_dry_wet,
            PotId::Deck2_1 => self.pot_deck2_1,
            PotId::Deck2_2 => self.pot_deck2_2,
            PotId::Deck2_3 => self.pot_deck2_3,
        }
    }
}

/// Append the contribution of one button field to the event list.
fn emit_button(v: &mut Vec<Event>, prev: &X1State, cur: &X1State, id: ButtonId)
    ensures
        final(v)@ == old(v)@ + spec_one_button(*prev, *cur, id),
{
    let new_val = cur.button_value(id);
    let old_val = prev.button_value(id);
    if new_val != old_val {
        let kind = if new_val {
            ButtonEventKind::Pressed
        } else {
            ButtonEventKind::Released
        };
        let modifiers = Modifiers::from_state(cur);
        v.push(Event::Button(ButtonEvent { id, kind, modifiers }));
    }
    assert(v@ =~= old(v)@ + spec_one_button(*prev, *cur, id));
}

/// Append the contribution of one encoder field to the event list.
fn emit_encoder(v: &mut Vec<Event>, prev: &X1State, cur: &X1State, id: EncoderId)
    ensures
        final(v)@ == old(v)@ + spec_one_encoder(*prev, *cur, id),
{
    let new_val = cur.encoder_value(id);
    let old_val = prev.encoder_value(id);
    if new_val != old_val {
        let modifiers = Modifiers::from_state(cur);
        v.push(Event::Encoder(EncoderEvent { id, value: new_val, previous: old_val, modifiers }));
    }
    assert(v@ =~= old(v)@ + spec_one_encoder(*prev, *cur, id));
}

/// Append the contribution of one pot field to the event list.
fn emit_pot(v: &mut Vec<Event>, prev: &X1State, cur: &X1State, id: PotId)
    ensures
        final(v)@ == old(v)@ + spec_one_pot(*prev, *cur, id),
{
    let new_val = cur.pot_value(id);
    let old_val = prev.pot_value(id);
    if new_val != old_val {
        let modifiers = Modifiers::from_state(cur);
        v.push(Event::Pot(PotEvent { id, value: new_val, previous: old_val, modifiers }));
    }
    assert(v@ =~= old(v)@ + spec_one_pot(*prev, *cur, id));
}

/// The button events of a diff, in the fixed enumeration order.
fn button_events(prev: &X1State, cur: &X1State) -> (r: Vec<Event>)
    ensures
        r@ == spec_button_events(*prev, *cur),
{
    let mut v: Vec<Event> = Vec::new();
    emit_button(&mut v, prev, cur, ButtonId::Deck1On);
    emit_button(&mut v, prev, cur, ButtonId::Deck2On);
    emit_button(&mut v, prev, cur, ButtonId::Deck1_1);
    emit_button(&mut v, prev, cur, ButtonId::Deck2_1);
    emit_button(&mut v, prev, cur, ButtonId::Deck1_2);
    emit_button(&mut v, prev, cur, ButtonId::Deck2_2);
    emit_button(&mut v, prev, cur, ButtonId::Deck1_3);
    emit_button(&mut v, prev, cur, ButtonId::Deck2_3);
    emit_button(&mut v, prev, cur, ButtonId::Deck1EncLoad);
    emit_button(&mut v, prev, cur, ButtonId::Shift);
    emit_button(&mut v, prev, cur, ButtonId::Deck2EncLoad);
    emit_button(&mut v, prev, cur, ButtonId::Deck1Fx1);
    emit_button(&mut v, prev, cur, ButtonId::Deck1Fx2);
    emit_button(&mut v, prev, cur, ButtonId::Deck2Fx1);
    emit_button(&mut v, prev, cur, ButtonId::Deck2Fx2);
    emit_button(&mut v, prev, cur, ButtonId::Deck1EncLoop);
    emit_button(&mut v, prev, cur, ButtonId::Hotcue);
    emit_button(&mut v, prev, cur, ButtonId::Deck2EncLoop);
    emit_button(&mut v, prev, cur, ButtonId::Deck1In);
    emit_button(&mut v, prev, cur, ButtonId::Deck1Out);
    emit_button(&mut v, prev, cur, ButtonId::Deck2In);
    emit_button(&mut v, prev, cur, ButtonId::Deck2Out);
    emit_button(&mut v, prev, cur, ButtonId::Deck1BeatLeft);
    emit_button(&mut v, prev, cur, ButtonId::Deck1BeatRight);
    emit_button(&mut v, prev, cur, ButtonId::Deck2BeatLeft);
    emit_button(&mut v, prev, cur, ButtonId::Deck2BeatRight);
    emit_button(&mut v, prev, cur, ButtonId::Deck1CueRel);
    emit_button(&mut v, prev, cur, ButtonId::Deck1CupAbs);
    emit_button(&mut v, prev, cur, ButtonId::Deck2CueRel);
    emit_button(&mut v, prev, cur, ButtonId::Deck2CupAbs);
    emit_button(&mut v, prev, cur, ButtonId::Deck1Play);
    emit_button(&mut v, prev, cur, ButtonId::Deck1Sync);
    emit_button(&mut v, prev, cur, ButtonId::Deck2Play);
    emit_button(&mut v, prev, cur, ButtonId::Deck2Sync);
    proof {
        assert(Seq::<Event>::empty() + spec_one_button(*prev, *cur, ButtonId::Deck1On)
            =~= spec_one_button(*prev, *cur, ButtonId::Deck1On));
    }
    v
}

/// The encoder events of a diff, in the fixed enumeration order.
fn encoder_events(prev: &X1State, cur: &X1State) -> (r: Vec<Event>)
    ensures
        r@ == spec_encoder_events(*prev, *cur),
{
    let mut v: Vec<Event> = Vec::new();
    emit_encoder(&mut v, prev, cur, EncoderId::Deck1Browse);
    emit_encoder(&mut v, prev, cur, EncoderId::Deck2Browse);
    emit_encoder(&mut v, prev, cur, EncoderId::Deck1Loop);
    emit_encoder(&mut v, prev, cur, EncoderId::Deck2Loop);
    proof {
        assert(Seq::<Event>::empty() + spec_one_encoder(*prev, *cur, EncoderId::Deck1Browse)
            =~= spec_one_encoder(*prev, *cur, EncoderId::Deck1Browse));
    }
    v
}

/// The pot events of a diff, in the fixed enumeration order.
fn pot_events(prev: &X1State, cur: &X1State) -> (r: Vec<Event>)
    ensures
        r@ == spec_pot_events(*prev, *cur),
{
    let mut v: Vec<Event> = Vec::new();
    emit_pot(&mut v, prev, cur, PotId::Deck1DryWet);
    emit_pot(&mut v, prev, cur, PotId::Deck1_1);
    emit_pot(&mut v, prev, cur, PotId::Deck1_2);
    emit_pot(&mut v, prev, cur, PotId::Deck1_3);
    emit_pot(&mut v, prev, cur, PotId::Deck2DryWet);
    emit_pot(&mut v, prev, cur, PotId::Deck2_1);
    emit_pot(&mut v, prev, cur, PotId::Deck2_2);
    emit_pot(&mut v, prev, cur, PotId::Deck2_3);
    proof {
        assert(Seq::<Event>::empty() + spec_one_pot(*prev, *cur, PotId::Deck1DryWet)
            =~= spec_one_pot(*prev, *cur, PotId::Deck1DryWet));
    }
    v
}

/// The minimal, deterministically ordered event list describing the
/// transition from one snapshot to the next.
pub fn diff_events(prev: &X1State, cur: &X1State) -> (r: Vec<Event>)
    ensures
        r@ == spec_events(*prev, *cur),
{
    let mut v = button_events(prev, cur);
    let mut e = encoder_events(prev, cur);
    let mut p = pot_events(prev, cur);
    v.append(&mut e);
    v.append(&mut p);
    v
}

/// Law: diffing two identical snapshots yields no events at all.
pub proof fn lemma_diff_identical(s: X1State)
    ensures
        spec_events(s, s) == Seq::<Event>::empty(),
{
    assert(spec_events(s, s) =~= Seq::<Event>::empty());
}

/// Law: two snapshots that differ in exactly one button field diff to exactly
/// one event: a transition event for that field, `Pressed` on a false-to-true
/// edge and `Released` on the opposite edge, with modifiers read from the
/// newer snapshot.
pub proof fn lemma_diff_single_button(prev: X1State, cur: X1State, id: ButtonId)
    requires
        spec_button_val(prev, id) != spec_button_val(cur, id),
        forall|b: ButtonId| b != id ==> spec_button_val(prev, b) == spec_button_val(cur, b),
        forall|e: EncoderId| spec_encoder_val(prev, e) == spec_encoder_val(cur, e),
        forall|q: PotId| spec_pot_val(prev, q) == spec_pot_val(cur, q),
    ensures
        spec_events(prev, cur) == spec_one_button(prev, cur, id),
        spec_events(prev, cur).len() == 1,
        spec_events(prev, cur)[0] == (Event::Button(
            ButtonEvent {
                id,
                kind: if spec_button_val(cur, id) {
                    ButtonEventKind::Pressed
                } else {
                    ButtonEventKind::Released
                },
                modifiers: spec_modifiers(cur),
            },
        )),
{
    assert(spec_events(prev, cur) =~= spec_one_button(prev, cur, id));
}

/// Poll-side controller core: the last recorded snapshot, the LED buffer, and
/// whether a baseline snapshot has been recorded yet. It consumes decoded
/// frames and produces the events the owner dispatches to its handlers.
#[derive(Debug)]
pub struct ControllerCore {
    /// LED output buffer; handlers get transient write access to it during
    /// dispatch.
    pub leds: LedHandle,
    /// The snapshot every new frame is diffed against.
    pub last_state: X1State,
    /// Whether a baseline snapshot has been recorded since connecting.
    pub initialized: bool,
}

impl ControllerCore {
    /// The LED buffer keeps its fixed length.
    pub open spec fn wf(self) -> bool {
        self.leds.wf()
    }

    /// Fresh core: baseline LED intensities, dirty buffer, no snapshot yet.
    pub fn new() -> (c: ControllerCore)
        ensures
            c.wf(),
            !c.initialized,
            c.last_state == spec_default_state(),
            c.leds.dirty,
            c.leds.leds@ == spec_initial_leds(),
    {
        ControllerCore {
            leds: LedHandle::new(),
            last_state: X1State::default(),
            initialized: false,
        }
    }

    /// Consume one full raw frame and return the events to dispatch, in the
    /// fixed enumeration order. The very first frame only records the
    /// baseline: it yields no events and forces the LED buffer dirty so the
    /// following flush is unconditional.
    pub fn on_frame(&mut self, frame: &[u8]) -> (events: Vec<Event>)
        requires
            old(self).wf(),
        ensures
            final(self).wf(),
            final(self).initialized,
            final(self).last_state == spec_decode(frame@),
            final(self).leds.leds@ == old(self).leds.leds@,
            !old(self).initialized ==> events@ == Seq::<Event>::empty() && final(self).leds.dirty,
            old(self).initialized ==> events@ == spec_events(
                old(self).last_state,
                spec_decode(frame@),
            ) && final(self).leds == old(self).leds,
    {
        let state = X1State::from_buf(frame);
        if !self.initialized {
            self.last_state = state;
            self.initialized = true;
            self.leds.mark_dirty();
            Vec::new()
        } else {
            let events = diff_events(&self.last_state, &state);
            self.last_state = state;
            events
        }
    }

    /// Write one LED slot if the index is in range and mark the buffer dirty;
    /// silently ignore an out-of-range index.
    pub fn set_led_raw(&mut self, idx: usize, value: u8)
        requires
            old(self).wf(),
        ensures
            final(self).wf(),
            final(self).last_state == old(self).last_state,
            final(self).initialized == old(self).initialized,
            idx < crate::leds::LED_COUNT ==> final(self).leds.leds@ == old(
                self,
            ).leds.leds@.update(idx as int, value) && final(self).leds.dirty,
            idx >= crate::leds::LED_COUNT ==> final(self).leds == old(self).leds,
    {
        self.leds.set_raw(idx, value);
    }

    /// Write one LED slot as bright or dim according to a pressed state.
    pub fn set_led_pressed(&mut self, idx: usize, pressed: bool)
        requires
            old(self).wf(),
        ensures
            final(self).wf(),
            final(self).last_state == old(self).last_state,
            final(self).initialized == old(self).initialized,
            idx < crate::leds::LED_COUNT ==> final(self).leds.leds@ == old(
                self,
            ).leds.leds@.update(
                idx as int,
                if pressed {
                    crate::leds::LED_BRIGHT
                } else {
                    crate::leds::LED_DIM
                },
            ) && final(self).leds.dirty,
            idx >= crate::leds::LED_COUNT ==> final(self).leds == old(self).leds,
    {
        self.leds.set_pressed(idx, pressed);
    }

    /// The snapshot recorded by the most recent frame.
    pub fn last_state(&self) -> (r: &X1State)
        ensures
            *r == self.last_state,
    {
        &self.last_state
    }
}

} // verus!
