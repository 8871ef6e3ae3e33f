//! [`GateControl`]: the instruction that opens or closes a gate node.

use vstd::prelude::*;

verus! {

/// The shim's encoding of an optional count: `None` is `-1` (unlimited /
/// unthrottled), a count is passed on, capped at `i32::MAX`.
pub open spec fn count_arg(v: Option<u32>) -> i32 {
    match v {
        None => -1i32,
        Some(n) => if n > i32::MAX as u32 {
            i32::MAX
        } else {
            n as i32
        },
    }
}

/// A `dai::GateControl(open, numMessages, fps)`, built on the host and sent
/// into a gate's `inputControl`: the arguments in the form the shim takes them.
#[derive(Debug, Clone, Copy, PartialEq, Eq, Structural)]
pub struct GateControl {
    /// `true`: forward messages; `false`: drop them.
    pub open_gate: bool,
    /// How many messages to pass before closing again (`-1` = unlimited).
    pub num_messages: i32,
    /// Throttle while open (`-1` = unthrottled).
    pub fps: i32,
}

impl GateControl {
    /// `GateControl(open, numMessages, fps)`: `num_messages` `None` = unlimited,
    /// `fps` `None` = unthrottled.
    pub fn new(open: bool, num_messages: Option<u32>, fps: Option<u32>) -> (r: Self)
        ensures
            r.open_gate == open,
            r.num_messages == count_arg(num_messages),
            r.fps == count_arg(fps),
    {
        let n: i32 = match num_messages {
            None => -1,
            Some(v) => if v > i32::MAX as u32 {
                i32::MAX
            } else {
                v as i32
            },
        };
        let f: i32 = match fps {
            None => -1,
            Some(v) => if v > i32::MAX as u32 {
                i32::MAX
            } else {
                v as i32
            },
        };
        GateControl { open_gate: open, num_messages: n, fps: f }
    }

    /// `GateControl::openGate()`: pass everything.
    pub fn open() -> (r: Self)
        ensures
            r == GateControl::new_spec(true, None, None),
    {
        Self::new(true, None, None)
    }

    /// `GateControl::closeGate()`: drop everything.
    pub fn close() -> (r: Self)
        ensures
            r == GateControl::new_spec(false, None, None),
    {
        Self::new(false, None, None)
    }

    /// `GateControl::openGate(numMessages, fps)`: pass the next `num_messages`
    /// (optionally throttled to `fps`), then close again.
    pub fn open_for(num_messages: u32, fps: Option<u32>) -> (r: Self)
        ensures
            r == GateControl::new_spec(true, Some(num_messages), fps),
    {
        Self::new(true, Some(num_messages), fps)
    }

    /// What [`new`](Self::new) builds.
    pub open spec fn new_spec(open: bool, num_messages: Option<u32>, fps: Option<u32>) -> GateControl {
        GateControl { open_gate: open, num_messages: count_arg(num_messages), fps: count_arg(fps) }
    }
}

} // verus!
