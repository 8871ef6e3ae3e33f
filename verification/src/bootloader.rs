//! [`DeviceBootloader`]: the bootloader-side connection to a device, used to
//! reboot a wedged one.

use vstd::prelude::*;

verus! {

/// A bootloader connection, identified by its shim handle. It is opened from
/// a [`DeviceInfo`](crate::device::DeviceInfo) record and has no operations
/// besides being held and released.
#[derive(Debug, PartialEq, Eq, Structural)]
pub struct DeviceBootloader {
    handle: u64,
}

impl DeviceBootloader {
    /// The handle this connection was made from.
    pub closed spec fn id(&self) -> u64 {
        self.handle
    }

    /// The connection the shim handle `handle` is.
    pub fn from_handle(handle: u64) -> (b: DeviceBootloader)
        ensures
            b.id() == handle,
    {
        DeviceBootloader { handle }
    }

    /// The shim handle of this connection.
    pub fn handle(&self) -> (h: u64)
        ensures
            h == self.id(),
    {
        self.handle
    }
}

} // verus!
