//! [`ImuData`]: one batch of IMU packets from the IMU node, and the
//! [`RawTimestamp`] its reports are stamped with.

use std::time::Duration;

use vstd::prelude::*;

use crate::enums::Datatype;
use crate::error::{duration_from_ns, duration_nanos, duration_nanos_of_ns, Result};
use crate::message::{AnyMessage, Message, MessageView, Sealed};

verus! {

/// `x` clamped into the range of `i64`: what a saturating `i64` operation
/// yields for the exact result `x`.
pub open spec fn saturate_i64(x: int) -> i64 {
    if x > i64::MAX {
        i64::MAX
    } else if x < i64::MIN {
        i64::MIN
    } else {
        x as i64
    }
}

/// A raw `dai::Timestamp { sec, nsec }` on the host `steady_clock`.
///
/// depthai value-initialises the reports inside an `IMUPacket`, so a report the
/// firmware did not fill in shows up with a `{0, 0}` timestamp; check
/// [`is_zero`](Self::is_zero) before trusting such a sample.
#[derive(Debug, Clone, Copy, PartialEq, Eq, Structural, Default)]
pub struct RawTimestamp {
    pub sec: i64,
    pub nsec: i64,
}

impl RawTimestamp {
    /// `sec * 1_000_000_000 + nsec` as two saturating `i64` steps: the product
    /// saturates, then the sum does.
    pub open spec fn nanos(self) -> i64 {
        saturate_i64(saturate_i64(self.sec * 1_000_000_000) + self.nsec)
    }

    /// The "never written" sentinel.
    pub fn is_zero(&self) -> (r: bool)
        ensures
            r == (self.sec == 0 && self.nsec == 0),
    {
        self.sec == 0 && self.nsec == 0
    }

    /// As nanoseconds since the clock's epoch (what `IMUReport::getTimestamp()`
    /// yields), saturating.
    pub fn as_nanos(&self) -> (r: i64)
        ensures
            r == self.nanos(),
    {
        let m: i64 = match self.sec.checked_mul(1_000_000_000) {
            Some(v) => v,
            None => if self.sec > 0 {
                i64::MAX
            } else {
                i64::MIN
            },
        };
        match m.checked_add(self.nsec) {
            Some(v) => v,
            None => if self.nsec > 0 {
                i64::MAX
            } else {
                i64::MIN
            },
        }
    }

    /// As a `Duration` since the clock's epoch; a negative count reads as zero.
    pub fn as_duration(&self) -> (d: Duration)
        ensures
            duration_nanos(d) == duration_nanos_of_ns(self.nanos()),
    {
        duration_from_ns(self.as_nanos())
    }
}

/// Where nothing saturates, the nanosecond count is exact.
pub proof fn lemma_nanos_exact(t: RawTimestamp)
    requires
        i64::MIN <= t.sec * 1_000_000_000 <= i64::MAX,
        i64::MIN <= t.sec * 1_000_000_000 + t.nsec <= i64::MAX,
    ensures
        t.nanos() == t.sec * 1_000_000_000 + t.nsec,
{
}

/// A `dai::IMUData` batch (up to `setMaxBatchReports` packets). The packets
/// are read through the shim.
#[derive(Debug)]
pub struct ImuData {
    any: AnyMessage,
}

impl Clone for ImuData {
    fn clone(&self) -> (r: ImuData)
        ensures
            r.any_view() == self.any_view(),
    {
        ImuData { any: self.any.clone() }
    }
}

impl Sealed for ImuData {}

impl Message for ImuData {
    open spec fn accepts() -> Option<Datatype> {
        Some(Datatype::ImuData)
    }

    closed spec fn any_view(&self) -> MessageView {
        self.any@
    }

    fn accepted_datatype() -> (r: Option<Datatype>) {
        Some(Datatype::ImuData)
    }

    fn from_any(any: AnyMessage) -> (r: Result<Self>) {
        Ok(ImuData { any })
    }

    fn as_any(&self) -> (r: &AnyMessage) {
        &self.any
    }
}

} // verus!
