//! LED output buffer.
//!
//! A fixed-length array of intensity bytes plus a dirty flag. Writes go
//! through a bounded-index operation that silently ignores out-of-range
//! indices. Flushing is split around the hardware write: the owner asks
//! [`LedHandle::needs_flush`], performs the bulk write only when it answers
//! `true`, and reports the outcome with [`LedHandle::complete_flush`]; the
//! dirty flag is cleared only after a successful write, so a failed write is
//! retried on the next cycle.

use vstd::prelude::*;

verus! {

/// Number of LED slots, one intensity byte each.
pub const LED_COUNT: usize = 32;

/// Default low intensity.
pub const LED_DIM: u8 = 0x05;

/// Default high intensity.
pub const LED_BRIGHT: u8 = 0x7F;

/// Distinct low-intensity baseline written to slot 0 at initialization.
pub const LED_SLOT0_BASE: u8 = 0x0C;

/// The LED buffer: intensity bytes for every slot, plus the dirty flag that
/// gates hardware writes. Passed to event handlers for the duration of a
/// dispatch as their only write access to LED output.
#[derive(Debug)]
pub struct LedHandle {
    pub leds: Vec<u8>,
    pub dirty: bool,
}

/// The initial intensities: slot 0 holds the baseline marker, every other
/// slot is dim.
pub open spec fn spec_initial_leds() -> Seq<u8> {
    Seq::new(LED_COUNT as nat, |i: int| if i == 0 { LED_SLOT0_BASE } else { LED_DIM })
}

/// The buffer after the outcome of one hardware write was recorded: the
/// intensities are untouched and the buffer is clean exactly when the write
/// succeeded.
pub open spec fn spec_after_flush(h: LedHandle, write_ok: bool) -> LedHandle {
    LedHandle { leds: h.leds, dirty: !write_ok }
}

impl LedHandle {
    /// The buffer always holds exactly one byte per slot.
    pub open spec fn wf(self) -> bool {
        self.leds.len() == LED_COUNT
    }

    /// Fresh buffer: baseline intensities, dirty so that the first flush is
    /// unconditional.
    pub fn new() -> (h: LedHandle)
        ensures
            h.wf(),
            h.dirty,
            h.leds@ == spec_initial_leds(),
    {
        let mut leds: Vec<u8> = Vec::new();
        leds.push(LED_SLOT0_BASE);
        let mut i: usize = 1;
        while i < LED_COUNT
            invariant
                1 <= i <= LED_COUNT,
                leds.len() == i,
                leds@[0] == LED_SLOT0_BASE,
                forall|j: int| 1 <= j < i ==> leds@[j] == LED_DIM,
            decreases LED_COUNT - i,
        {
            leds.push(LED_DIM);
            i = i + 1;
        }
        assert(leds@ =~= spec_initial_leds());
        LedHandle { leds, dirty: true }
    }

    /// Write one slot if the index is in range and mark the buffer dirty;
    /// silently ignore an out-of-range index.
    pub fn set_raw(&mut self, idx: usize, value: u8)
        requires
            old(self).wf(),
        ensures
            final(self).wf(),
            idx < LED_COUNT ==> final(self).leds@ == old(self).leds@.update(idx as int, value)
                && final(self).dirty,
            idx >= LED_COUNT ==> *final(self) == *old(self),
    {
        if idx < self.leds.len() {
            self.leds.set(idx, value);
            self.dirty = true;
        }
    }

    /// Write one slot as bright or dim according to a pressed state.
    pub fn set_pressed(&mut self, idx: usize, pressed: bool)
        requires
            old(self).wf(),
        ensures
            final(self).wf(),
            idx < LED_COUNT ==> final(self).leds@ == old(self).leds@.update(
                idx as int,
                if pressed {
                    LED_BRIGHT
                } else {
                    LED_DIM
                },
            ) && final(self).dirty,
            idx >= LED_COUNT ==> *final(self) == *old(self),
    {
        let value = if pressed {
            LED_BRIGHT
        } else {
            LED_DIM
        };
        self.set_raw(idx, value);
    }

    /// Force the next flush to perform a hardware write.
    pub fn mark_dirty(&mut self)
        ensures
            final(self).leds == old(self).leds,
            final(self).dirty,
    {
        self.dirty = true;
    }

    /// Whether a hardware write is pending. The owner performs the bulk write
    /// only when this answers `true`.
    pub fn needs_flush(&self) -> (r: bool)
        ensures
            r == self.dirty,
    {
        self.dirty
    }

    /// Record the outcome of the hardware write of the full buffer: the dirty
    /// flag is cleared only when the write succeeded, leaving a failed write
    /// to be retried on the next cycle.
    pub fn complete_flush(&mut self, write_ok: bool)
        requires
            old(self).dirty,
        ensures
            *final(self) == spec_after_flush(*old(self), write_ok),
            final(self).leds == old(self).leds,
            final(self).dirty == !write_ok,
    {
        self.dirty = !write_ok;
    }
}

/// Law: one successful flush leaves nothing pending, so a second flush with
/// no intervening write performs no hardware write at all. (A failed write
/// deliberately leaves the buffer dirty: the next cycle retries it.)
pub proof fn lemma_second_flush_writes_nothing(h: LedHandle)
    requires
        h.dirty,
    ensures
        !spec_after_flush(h, true).dirty,
{
}

} // verus!
