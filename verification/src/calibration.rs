//! [`CalibrationHandler`]: the factory calibration read from a device's EEPROM.

use vstd::prelude::*;

verus! {

/// A `dai::CalibrationHandler` read from a device, identified by its shim
/// handle. Its getters (camera matrices, distortion, extrinsics, baselines,
/// fields of view) return floating-point values and are made by the code that
/// links the shim.
#[derive(Debug, PartialEq, Eq, Structural)]
pub struct CalibrationHandler {
    handle: u64,
}

impl CalibrationHandler {
    /// The handle this calibration was made from.
    pub closed spec fn id(&self) -> u64 {
        self.handle
    }

    /// The calibration the shim handle `handle` is.
    pub fn from_handle(handle: u64) -> (c: CalibrationHandler)
        ensures
            c.id() == handle,
    {
        CalibrationHandler { handle }
    }

    /// The shim handle of this calibration.
    pub fn handle(&self) -> (h: u64)
        ensures
            h == self.id(),
    {
        self.handle
    }
}

} // verus!
