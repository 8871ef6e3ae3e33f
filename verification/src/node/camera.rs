//! [`Camera`]: `dai::node::Camera`.

use vstd::prelude::*;

use crate::node::{Node, NodeHandle, NodeType, NodeView};

verus! {

/// A `dai::node::Camera`, the v3 unified camera node. Create it, build it onto
/// a board socket, then request one or more output streams (through the shim).
#[derive(Debug)]
pub struct Camera(NodeHandle);

impl Clone for Camera {
    fn clone(&self) -> (r: Camera)
        ensures
            r.node_view() == self.node_view(),
    {
        Camera(self.0.clone())
    }
}

impl Node for Camera {
    closed spec fn node_view(&self) -> NodeView {
        self.0@
    }

    fn handle(&self) -> (h: &NodeHandle) {
        &self.0
    }
}

impl NodeType for Camera {
    fn from_handle(handle: NodeHandle) -> (n: Self) {
        Camera(handle)
    }
}

/// `Option<(w, h)>` as the shim's `-1, -1` = nullopt pair, each dimension
/// cast to `i32` as `as` casts.
pub fn opt_size(size: Option<(u32, u32)>) -> (r: (i32, i32))
    ensures
        match size {
            None => r == (-1i32, -1i32),
            Some((w, h)) => r == (w as i32, h as i32),
        },
{
    match size {
        None => (-1, -1),
        Some((w, h)) => (w as i32, h as i32),
    }
}

} // verus!
