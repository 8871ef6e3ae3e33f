//! [`NNArchive`]: a `dai::NNArchive` (model blob and config) loaded from disk.

use vstd::prelude::*;

verus! {

/// A loaded model archive, identified by its shim handle. Neural-network
/// nodes are built from it.
#[derive(Debug, PartialEq, Eq, Structural)]
pub struct NNArchive {
    handle: u64,
}

impl NNArchive {
    /// The handle this archive was made from.
    pub closed spec fn id(&self) -> u64 {
        self.handle
    }

    /// The archive the shim handle `handle` is.
    pub fn from_handle(handle: u64) -> (a: NNArchive)
        ensures
            a.id() == handle,
    {
        NNArchive { handle }
    }

    /// The shim handle of this archive.
    pub fn handle(&self) -> (h: u64)
        ensures
            h == self.id(),
    {
        self.handle
    }
}

} // verus!
