//! Events the main loop consumes, and the tick timing of the event source.
use vstd::prelude::*;

verus! {

/// Interval between two ticks, in milliseconds.
pub const TICK_RATE_MS: u64 = 250;

/// A key, as far as the console's bindings tell keys apart.
#[derive(Debug, Clone, Copy, PartialEq, Eq, Structural)]
pub enum KeyCode {
    Char(char),
    Tab,
    BackTab,
    Up,
    Down,
    Enter,
    Other,
}

/// A key press and whether the control modifier was held.
#[derive(Debug, Clone, Copy, PartialEq, Eq, Structural)]
pub struct KeyPress {
    pub code: KeyCode,
    pub ctrl: bool,
}

/// One item of the ordered stream that drives the main loop.
#[derive(Debug, Clone, Copy, PartialEq, Eq, Structural)]
pub enum Event {
    /// The refresh interval has elapsed.
    Tick,
    Key(KeyPress),
    Mouse,
    Resize(u16, u16),
}

/// How long the event source may wait for input before the next tick is due:
/// what is left of the interval, or nothing once it has elapsed.
pub fn poll_timeout(tick_rate_ns: u64, elapsed_ns: u64) -> (r: u64)
    ensures
        r == if elapsed_ns < tick_rate_ns { tick_rate_ns - elapsed_ns } else { 0 },
{
    match tick_rate_ns.checked_sub(elapsed_ns) {
        Some(left) => left,
        None => 0,
    }
}

/// Whether a tick is to be sent now. After sending one, the source measures
/// the next interval from that moment, so a long stall yields a single tick.
pub fn tick_due(tick_rate_ns: u64, elapsed_ns: u64) -> (r: bool)
    ensures
        r == (elapsed_ns >= tick_rate_ns),
{
    elapsed_ns >= tick_rate_ns
}

} // verus!
