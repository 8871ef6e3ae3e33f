//! [`DetectionNetwork`]: `dai::node::DetectionNetwork`.

use vstd::prelude::*;

use crate::node::{Node, NodeHandle, NodeType, NodeView};

verus! {

/// A `dai::node::DetectionNetwork`: inference plus on-device decoding for the
/// detection heads depthai's `DetectionParser` knows (YOLO, SSD). Its ports are
/// references into its two subnodes, reached through dedicated shim accessors.
#[derive(Debug)]
pub struct DetectionNetwork(NodeHandle);

impl Clone for DetectionNetwork {
    fn clone(&self) -> (r: DetectionNetwork)
        ensures
            r.node_view() == self.node_view(),
    {
        DetectionNetwork(self.0.clone())
    }
}

impl Node for DetectionNetwork {
    closed spec fn node_view(&self) -> NodeView {
        self.0@
    }

    fn handle(&self) -> (h: &NodeHandle) {
        &self.0
    }
}

impl NodeType for DetectionNetwork {
    fn from_handle(handle: NodeHandle) -> (n: Self) {
        DetectionNetwork(handle)
    }
}

} // verus!
