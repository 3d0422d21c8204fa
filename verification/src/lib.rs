//! Control core for a USB tempo/transport controller: bit-level frame
//! decoding, edge-triggered event dispatch, LED output buffering, and a
//! deadline-anchored clock-pulse state machine.

pub mod clock;
pub mod dispatch;
pub mod events;
pub mod leds;
pub mod ports;
pub mod state;
