//! Clock-pulse generator state machine.
//!
//! A dedicated thread owns one output connection and consumes commands from a
//! channel; every decision that thread makes is a pure transition of
//! [`ClockState`] defined here. The surrounding loop (receive with timeout,
//! send a byte, read the monotonic clock) supplies the inputs: the current
//! monotonic time in nanoseconds, the received command or channel outcome, and
//! whether the byte for the step was sent successfully.
//!
//! Scheduling is deadline-anchored: a successfully emitted pulse advances the
//! deadline by exactly one interval measured from the previous deadline, never
//! from the current time, so transient emission delays cause catch-up pulses
//! instead of permanent phase drift.

use vstd::prelude::*;

verus! {

/// Transport byte emitted for each clock pulse.
pub const PULSE_BYTE: u8 = 0xF8;

/// Transport byte emitted when the transport starts.
pub const START_BYTE: u8 = 0xFA;

/// Transport byte emitted when the transport stops.
pub const STOP_BYTE: u8 = 0xFC;

/// Pulse density of the timing signal, in pulses per quarter note.
pub const PULSES_PER_QUARTER: u64 = 24;

/// Lowest effective tempo, in beats per minute.
pub const MIN_BPM: u64 = 30;

/// Highest effective tempo, in beats per minute.
pub const MAX_BPM: u64 = 300;

/// Nanoseconds in one minute.
pub const NANOS_PER_MINUTE: u64 = 60_000_000_000;

/// A command sent to the clock thread over its channel.
#[derive(Clone, Copy, Debug, PartialEq, Eq, Structural)]
pub enum ClockCommand {
    /// Begin producing pulses and emit the start marker.
    Start,
    /// Cease producing pulses and emit the stop marker.
    Stop,
    /// Change the tempo; the value is clamped to `[MIN_BPM, MAX_BPM]`.
    SetRate(u64),
    /// Emit the stop marker if running, then terminate the thread.
    Shutdown,
}

/// One outcome of waiting on the command channel.
#[derive(Clone, Copy, Debug, PartialEq, Eq, Structural)]
pub enum ClockEvent {
    /// A command arrived.
    Cmd(ClockCommand),
    /// The bounded wait elapsed with no command.
    TimedOut,
    /// Every sender was dropped: an implicit shutdown without a stop marker.
    Disconnected,
}

/// The clock thread's entire mutable state.
#[derive(Clone, Copy, Debug, PartialEq, Eq, Structural)]
pub struct ClockState {
    /// Current tempo in beats per minute, always within `[MIN_BPM, MAX_BPM]`.
    pub bpm: u64,
    /// Whether pulses are currently being produced.
    pub running: bool,
    /// Monotonic time, in nanoseconds, at which the next pulse is owed.
    pub next_deadline: u64,
}

/// Tempo clamped to the supported range.
pub open spec fn spec_clamp_bpm(raw: u64) -> u64 {
    if raw < MIN_BPM {
        MIN_BPM
    } else if raw > MAX_BPM {
        MAX_BPM
    } else {
        raw
    }
}

/// Nanoseconds between two pulses at the given tempo:
/// `60 / (bpm * PULSES_PER_QUARTER)` seconds, rounded down to whole nanoseconds.
pub open spec fn spec_interval_nanos(bpm: u64) -> u64
    recommends
        1 <= bpm,
{
    (NANOS_PER_MINUTE as int / (bpm as int * PULSES_PER_QUARTER as int)) as u64
}

/// `base + step`, or `fallback` when the sum does not fit in the time type.
pub open spec fn spec_next_after(base: u64, step: u64, fallback: u64) -> u64 {
    if base + step <= u64::MAX {
        (base + step) as u64
    } else {
        fallback
    }
}

/// Clamp a requested tempo to the supported range.
pub fn clamp_bpm(raw: u64) -> (r: u64)
    ensures
        r == spec_clamp_bpm(raw),
        MIN_BPM <= r <= MAX_BPM,
{
    if raw < MIN_BPM {
        MIN_BPM
    } else if raw > MAX_BPM {
        MAX_BPM
    } else {
        raw
    }
}

/// Nanoseconds between two pulses at the given tempo.
pub fn interval_nanos(bpm: u64) -> (r: u64)
    requires
        1 <= bpm <= MAX_BPM,
    ensures
        r == spec_interval_nanos(bpm),
{
    NANOS_PER_MINUTE / (bpm * PULSES_PER_QUARTER)
}

/// Advance a deadline by one step, falling back to `fallback` when the sum
/// does not fit.
fn next_after(base: u64, step: u64, fallback: u64) -> (r: u64)
    ensures
        r == spec_next_after(base, step, fallback),
{
    match base.checked_add(step) {
        Some(d) => d,
        None => fallback,
    }
}

/// State after a due pulse was attempted: on success the deadline advances by
/// one interval anchored at the previous deadline; on transport failure the
/// clock drops to idle with tempo and deadline untouched.
pub open spec fn spec_pulse(s: ClockState, now: u64, send_ok: bool) -> ClockState {
    if send_ok {
        ClockState {
            bpm: s.bpm,
            running: s.running,
            next_deadline: spec_next_after(s.next_deadline, spec_interval_nanos(s.bpm), now),
        }
    } else {
        ClockState { bpm: s.bpm, running: false, next_deadline: s.next_deadline }
    }
}

/// State after a command was handled, given whether the marker byte for it
/// (if any) was sent successfully.
pub open spec fn spec_apply_command(
    s: ClockState,
    cmd: ClockCommand,
    now: u64,
    send_ok: bool,
) -> ClockState {
    match cmd {
        ClockCommand::Start => if send_ok {
            ClockState {
                bpm: s.bpm,
                running: true,
                next_deadline: spec_next_after(now, spec_interval_nanos(s.bpm), now),
            }
        } else {
            ClockState { bpm: s.bpm, running: false, next_deadline: s.next_deadline }
        },
        ClockCommand::Stop => ClockState {
            bpm: s.bpm,
            running: false,
            next_deadline: s.next_deadline,
        },
        ClockCommand::SetRate(raw) => {
            let bpm = spec_clamp_bpm(raw);
            ClockState {
                bpm,
                running: s.running,
                next_deadline: if s.running {
                    spec_next_after(now, spec_interval_nanos(bpm), now)
                } else {
                    s.next_deadline
                },
            }
        },
        ClockCommand::Shutdown => s,
    }
}

/// The marker byte a command asks the thread to emit, if any.
pub open spec fn spec_command_byte(s: ClockState, cmd: ClockCommand) -> Option<u8> {
    match cmd {
        ClockCommand::Start => Some(START_BYTE),
        ClockCommand::Stop => Some(STOP_BYTE),
        ClockCommand::SetRate(_) => None,
        ClockCommand::Shutdown => if s.running {
            Some(STOP_BYTE)
        } else {
            None
        },
    }
}

/// Whether handling the event ends the thread.
pub open spec fn spec_event_exits(ev: ClockEvent) -> bool {
    match ev {
        ClockEvent::Cmd(c) => c is Shutdown,
        ClockEvent::TimedOut => false,
        ClockEvent::Disconnected => true,
    }
}

/// The marker byte a channel outcome asks the thread to emit, if any. A
/// disconnected channel is an implicit shutdown without a stop marker.
pub open spec fn spec_event_byte(s: ClockState, ev: ClockEvent) -> Option<u8> {
    match ev {
        ClockEvent::Cmd(c) => spec_command_byte(s, c),
        ClockEvent::TimedOut => None,
        ClockEvent::Disconnected => None,
    }
}

/// State after a channel outcome was handled.
pub open spec fn spec_apply_event(
    s: ClockState,
    ev: ClockEvent,
    now: u64,
    send_ok: bool,
) -> ClockState {
    match ev {
        ClockEvent::Cmd(c) => spec_apply_command(s, c, now, send_ok),
        ClockEvent::TimedOut => s,
        ClockEvent::Disconnected => s,
    }
}

impl ClockState {
    /// Tempo is within the supported range.
    pub open spec fn wf(self) -> bool {
        MIN_BPM <= self.bpm <= MAX_BPM
    }

    /// A pulse is owed exactly when the clock is running and the deadline has
    /// passed.
    pub open spec fn spec_tick_due(self, now: u64) -> bool {
        self.running && now >= self.next_deadline
    }

    /// Initial state: clamped tempo, idle, deadline parked at the current time.
    pub fn new(initial_bpm: u64, now: u64) -> (s: Self)
        ensures
            s.bpm == spec_clamp_bpm(initial_bpm),
            !s.running,
            s.next_deadline == now,
            s.wf(),
    {
        ClockState { bpm: clamp_bpm(initial_bpm), running: false, next_deadline: now }
    }

    /// Whether a pulse must be emitted before waiting for the next command.
    pub fn tick_due(&self, now: u64) -> (r: bool)
        ensures
            r == self.spec_tick_due(now),
    {
        self.running && now >= self.next_deadline
    }

    /// Nanoseconds between two pulses at the current tempo.
    pub fn interval(&self) -> (r: u64)
        requires
            self.wf(),
        ensures
            r == spec_interval_nanos(self.bpm),
    {
        interval_nanos(self.bpm)
    }

    /// Record the outcome of emitting one due pulse.
    pub fn apply_pulse(&mut self, now: u64, send_ok: bool)
        requires
            old(self).wf(),
            old(self).spec_tick_due(now),
        ensures
            *final(self) == spec_pulse(*old(self), now, send_ok),
            final(self).wf(),
    {
        if send_ok {
            let iv = interval_nanos(self.bpm);
            self.next_deadline = next_after(self.next_deadline, iv, now);
        } else {
            self.running = false;
        }
    }

    /// The marker byte this command asks the thread to emit, if any.
    pub fn command_byte(&self, cmd: ClockCommand) -> (r: Option<u8>)
        ensures
            r == spec_command_byte(*self, cmd),
    {
        match cmd {
            ClockCommand::Start => Some(START_BYTE),
            ClockCommand::Stop => Some(STOP_BYTE),
            ClockCommand::SetRate(_) => None,
            ClockCommand::Shutdown => if self.running {
                Some(STOP_BYTE)
            } else {
                None
            },
        }
    }

    /// Record the outcome of handling one command. Returns whether the thread
    /// must exit.
    pub fn apply_command(&mut self, cmd: ClockCommand, now: u64, send_ok: bool) -> (exit: bool)
        requires
            old(self).wf(),
        ensures
            *final(self) == spec_apply_command(*old(self), cmd, now, send_ok),
            final(self).wf(),
            exit == (cmd is Shutdown),
    {
        match cmd {
            ClockCommand::Start => {
                if send_ok {
                    let iv = interval_nanos(self.bpm);
                    self.running = true;
                    self.next_deadline = next_after(now, iv, now);
                } else {
                    self.running = false;
                }
                false
            },
            ClockCommand::Stop => {
                self.running = false;
                false
            },
            ClockCommand::SetRate(raw) => {
                self.bpm = clamp_bpm(raw);
                if self.running {
                    let iv = interval_nanos(self.bpm);
                    self.next_deadline = next_after(now, iv, now);
                }
                false
            },
            ClockCommand::Shutdown => true,
        }
    }

    /// The marker byte this channel outcome asks the thread to emit, if any.
    pub fn event_byte(&self, ev: ClockEvent) -> (r: Option<u8>)
        ensures
            r == spec_event_byte(*self, ev),
    {
        match ev {
            ClockEvent::Cmd(c) => self.command_byte(c),
            ClockEvent::TimedOut => None,
            ClockEvent::Disconnected => None,
        }
    }

    /// Record the outcome of one wait on the command channel. Returns whether
    /// the thread must exit.
    pub fn apply_event(&mut self, ev: ClockEvent, now: u64, send_ok: bool) -> (exit: bool)
        requires
            old(self).wf(),
        ensures
            *final(self) == spec_apply_event(*old(self), ev, now, send_ok),
            final(self).wf(),
            exit == spec_event_exits(ev),
    {
        match ev {
            ClockEvent::Cmd(c) => self.apply_command(c, now, send_ok),
            ClockEvent::TimedOut => false,
            ClockEvent::Disconnected => true,
        }
    }
}

/// State after a run of successfully emitted pulses, one per entry of `nows`;
/// each entry is the monotonic time at which that pulse actually went out.
pub open spec fn spec_ticks_ok(s: ClockState, nows: Seq<u64>) -> ClockState
    decreases nows.len(),
{
    if nows.len() == 0 {
        s
    } else {
        spec_pulse(spec_ticks_ok(s, nows.drop_last()), nows.last(), true)
    }
}

/// Law: scheduling is drift-free. After any run of successfully emitted
/// pulses, at whatever actual times the emissions happened, the deadline
/// equals the starting deadline advanced by exactly one interval per pulse;
/// tempo and run state are untouched. Delayed emissions therefore catch up to
/// the anchored timeline instead of accumulating drift.
pub proof fn lemma_deadline_anchored(s: ClockState, nows: Seq<u64>)
    requires
        s.wf(),
        s.next_deadline + nows.len() * spec_interval_nanos(s.bpm) <= u64::MAX,
    ensures
        spec_ticks_ok(s, nows).bpm == s.bpm,
        spec_ticks_ok(s, nows).running == s.running,
        spec_ticks_ok(s, nows).next_deadline == s.next_deadline + nows.len() * spec_interval_nanos(
            s.bpm,
        ),
    decreases nows.len(),
{
    if nows.len() > 0 {
        let iv = spec_interval_nanos(s.bpm);
        let n = nows.len() as int;
        assert((n - 1) * iv + iv == n * iv) by (nonlinear_arith);
        assert((n - 1) * iv <= n * iv) by (nonlinear_arith)
            requires
                n >= 1,
                iv >= 0,
        ;
        lemma_deadline_anchored(s, nows.drop_last());
    }
}

/// Law: starting and then stopping before the first deadline elapses emits
/// exactly the start marker and the stop marker. No pulse is owed between the
/// two commands, and none after the stop.
pub proof fn lemma_start_then_stop(s: ClockState, now_start: u64, now_stop: u64)
    requires
        s.wf(),
        !s.running,
    ensures
        spec_command_byte(s, ClockCommand::Start) == Some(START_BYTE),
        forall|t: u64|
            t < spec_apply_command(s, ClockCommand::Start, now_start, true).next_deadline
                ==> !spec_apply_command(s, ClockCommand::Start, now_start, true).spec_tick_due(t),
        spec_command_byte(
            spec_apply_command(s, ClockCommand::Start, now_start, true),
            ClockCommand::Stop,
        ) == Some(STOP_BYTE),
        !spec_apply_command(
            spec_apply_command(s, ClockCommand::Start, now_start, true),
            ClockCommand::Stop,
            now_stop,
            true,
        ).running,
        forall|t: u64|
            !spec_apply_command(
                spec_apply_command(s, ClockCommand::Start, now_start, true),
                ClockCommand::Stop,
                now_stop,
                true,
            ).spec_tick_due(t),
{
}

/// Law: a shutdown emits the stop marker exactly when the clock is running,
/// and always ends the thread; a disconnected channel ends the thread with no
/// marker at all.
pub proof fn lemma_shutdown_marker(s: ClockState)
    ensures
        s.running ==> spec_command_byte(s, ClockCommand::Shutdown) == Some(STOP_BYTE),
        !s.running ==> spec_command_byte(s, ClockCommand::Shutdown) is None,
        spec_event_exits(ClockEvent::Cmd(ClockCommand::Shutdown)),
        spec_event_byte(s, ClockEvent::Disconnected) is None,
        spec_event_exits(ClockEvent::Disconnected),
{
}

} // verus!
