//! Typed identifiers and edge-triggered events for the control surface.

use vstd::prelude::*;

verus! {

/// Classification for button state transitions.
#[derive(Clone, Copy, Debug, PartialEq, Eq, Structural)]
pub enum ButtonEventKind {
    Pressed,
    Released,
}

/// Modifier keys held on the snapshot an event was read from.
#[derive(Clone, Copy, Debug, Default, PartialEq, Eq, Structural)]
pub struct Modifiers {
    pub shift: bool,
}

/// Stable identifiers for every button field, in diff order.
#[derive(Clone, Copy, Debug, PartialEq, Eq, Structural)]
pub enum ButtonId {
    Deck1On,
    Deck2On,
    Deck1_1,
    Deck2_1,
    Deck1_2,
    Deck2_2,
    Deck1_3,
    Deck2_3,
    Deck1EncLoad,
    Shift,
    Deck2EncLoad,
    Deck1Fx1,
    Deck1Fx2,
    Deck2Fx1,
    Deck2Fx2,
    Deck1EncLoop,
    Hotcue,
    Deck2EncLoop,
    Deck1In,
    Deck1Out,
    Deck2In,
    Deck2Out,
    Deck1BeatLeft,
    Deck1BeatRight,
    Deck2BeatLeft,
    Deck2BeatRight,
    Deck1CueRel,
    Deck1CupAbs,
    Deck2CueRel,
    Deck2CupAbs,
    Deck1Play,
    Deck1Sync,
    Deck2Play,
    Deck2Sync,
}

/// Stable identifiers for every encoder field, in diff order.
#[derive(Clone, Copy, Debug, PartialEq, Eq, Structural)]
pub enum EncoderId {
    Deck1Browse,
    Deck2Browse,
    Deck1Loop,
    Deck2Loop,
}

/// Stable identifiers for every potentiometer field, in diff order.
#[derive(Clone, Copy, Debug, PartialEq, Eq, Structural)]
pub enum PotId {
    Deck1DryWet,
    Deck1_1,
    Deck1_2,
    Deck1_3,
    Deck2DryWet,
    Deck2_1,
    Deck2_2,
    Deck2_3,
}

/// Information about a button transition.
#[derive(Clone, Copy, Debug, PartialEq, Eq, Structural)]
pub struct ButtonEvent {
    pub id: ButtonId,
    pub kind: ButtonEventKind,
    pub modifiers: Modifiers,
}

/// Information about an encoder value change.
#[derive(Clone, Copy, Debug, PartialEq, Eq, Structural)]
pub struct EncoderEvent {
    pub id: EncoderId,
    pub value: u8,
    pub previous: u8,
    pub modifiers: Modifiers,
}

/// Information about a potentiometer value change.
#[derive(Clone, Copy, Debug, PartialEq, Eq, Structural)]
pub struct PotEvent {
    pub id: PotId,
    pub value: u16,
    pub previous: u16,
    pub modifiers: Modifiers,
}

/// One edge-triggered event, tagged by field category.
#[derive(Clone, Copy, Debug, PartialEq, Eq, Structural)]
pub enum Event {
    Button(ButtonEvent),
    Encoder(EncoderEvent),
    Pot(PotEvent),
}

} // verus!
