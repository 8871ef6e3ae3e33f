//! [`Pipeline`]: the node graph that runs on a device.

use vstd::prelude::*;

use crate::device::Device;
use crate::node::{port_views, NodeHandle, NodeType, NodeView, PortEntry};

verus! {

/// A `dai::Pipeline`, identified by its shim handle, with the [`Device`] it
/// runs on (`None` for a host-only pipeline). Cloning refers to the same
/// pipeline.
///
/// Build the graph (create nodes, request outputs, link, create queues), then
/// start. Configure from one thread before starting.
#[derive(Clone, Copy, Debug, PartialEq, Eq, Structural)]
pub struct Pipeline {
    handle: u64,
    device: Option<Device>,
}

impl Pipeline {
    /// The shim handle of this pipeline.
    pub closed spec fn id(&self) -> u64 {
        self.handle
    }

    /// The device this pipeline was made for.
    pub closed spec fn spec_device(&self) -> Option<Device> {
        self.device
    }

    /// The pipeline the shim handle `handle` is, bound to `device` (`None` =
    /// host-only, `dai::Pipeline(false)`).
    pub fn from_handle(handle: u64, device: Option<Device>) -> (p: Pipeline)
        ensures
            p.id() == handle,
            p.spec_device() == device,
    {
        Pipeline { handle, device }
    }

    /// The shim handle of this pipeline.
    pub fn handle(&self) -> (h: u64)
        ensures
            h == self.id(),
    {
        self.handle
    }

    /// The device this pipeline runs on (`None` for a host-only pipeline).
    pub fn device(&self) -> (d: Option<&Device>)
        ensures
            match self.spec_device() {
                Some(dev) => d matches Some(r) && *r == dev,
                None => d is None,
            },
    {
        self.device.as_ref()
    }

    /// The node of type `N` the shim created in this pipeline: the node's
    /// shim handle, its C++ type name, and the inputs and outputs the shim
    /// lists for it, with this pipeline as its owner.
    pub fn create<N: NodeType>(
        &self,
        handle: u64,
        node_type_name: String,
        inputs: Vec<PortEntry>,
        outputs: Vec<PortEntry>,
    ) -> (n: N)
        ensures
            n.node_view() == (NodeView {
                handle,
                node_type_name: node_type_name@,
                pipeline: *self,
                inputs: port_views(inputs@),
                outputs: port_views(outputs@),
            }),
    {
        N::from_handle(NodeHandle::new(handle, node_type_name, *self, inputs, outputs))
    }
}

} // verus!
