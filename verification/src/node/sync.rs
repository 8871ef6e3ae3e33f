//! [`Sync`]: `dai::node::Sync`.

use vstd::prelude::*;

use crate::error::Result;
use crate::message::MessageGroup;
use crate::node::{Node, NodeHandle, NodeType, NodeView, output_required_post};
use crate::port::{Output};

verus! {

/// A `dai::node::Sync`: time-aligns several streams into one
/// [`MessageGroup`](crate::message::MessageGroup) per tick. Link each stream into a
/// named key of its `inputs` map; read groups from [`out`](Self::out).
#[derive(Debug)]
pub struct Sync(NodeHandle);

impl Clone for Sync {
    fn clone(&self) -> (r: Sync)
        ensures
            r.node_view() == self.node_view(),
    {
        Sync(self.0.clone())
    }
}

impl Node for Sync {
    closed spec fn node_view(&self) -> NodeView {
        self.0@
    }

    fn handle(&self) -> (h: &NodeHandle) {
        &self.0
    }
}

impl NodeType for Sync {
    fn from_handle(handle: NodeHandle) -> (n: Self) {
        Sync(handle)
    }
}

impl Sync {
    /// The grouped output.
    pub fn out(&self) -> (r: Result<Output<MessageGroup>>)
        ensures
            output_required_post(self.node_view(), "out"@, r),
    {
        self.0.output_required("out")
    }
}

} // verus!
