//! What one turn of the event loop does.
//!
//! The loop waits at most `TICK_MS` for the device or the OSC socket to
//! become readable, handles whichever is, and flushes the lights once
//! `TICK_MS` have passed since the last flush.
use vstd::prelude::*;

verus! {

/// The light refresh period, and the longest wait for input, in milliseconds.
pub const TICK_MS: u64 = 16;

/// The work of one turn of the loop.
#[derive(Clone, Copy, PartialEq, Eq, Structural, Debug)]
pub struct LoopStep {
    pub read_device: bool,
    pub read_osc: bool,
    pub flush_lights: bool,
}

/// The work of one turn, from what is readable and the milliseconds since
/// the last flush.
pub fn plan_iteration(device_ready: bool, osc_ready: bool, elapsed_ms: u64) -> (r: LoopStep)
    ensures
        r.read_device == device_ready,
        r.read_osc == osc_ready,
        r.flush_lights == (elapsed_ms >= TICK_MS),
{
    LoopStep { read_device: device_ready, read_osc: osc_ready, flush_lights: elapsed_ms >= TICK_MS }
}

} // verus!
