//! [`Gate`]: `dai::node::Gate`.

use vstd::prelude::*;

use crate::error::Result;
use crate::message::AnyMessage;
use crate::node::{Node, NodeHandle, NodeType, NodeView, input_required_post, output_required_post};
use crate::port::{Input, Output};

verus! {

/// A `dai::node::Gate`: forwards `input` to `output` while open, drops while
/// closed. Drive it from the host by sending a
/// [`GateControl`](crate::message::GateControl) into
/// [`input_control`](Self::input_control).
#[derive(Debug)]
pub struct Gate(NodeHandle);

impl Clone for Gate {
    fn clone(&self) -> (r: Gate)
        ensures
            r.node_view() == self.node_view(),
    {
        Gate(self.0.clone())
    }
}

impl Node for Gate {
    closed spec fn node_view(&self) -> NodeView {
        self.0@
    }

    fn handle(&self) -> (h: &NodeHandle) {
        &self.0
    }
}

impl NodeType for Gate {
    fn from_handle(handle: NodeHandle) -> (n: Self) {
        Gate(handle)
    }
}

impl Gate {
    /// The gated stream in (any `Buffer`; queue size 1, non-blocking).
    pub fn input(&self) -> (r: Result<Input>)
        ensures
            input_required_post(self.node_view(), "input"@, r),
    {
        self.0.input_required("input")
    }

    /// The gated stream out (same message type as what went in).
    pub fn output(&self) -> (r: Result<Output<AnyMessage>>)
        ensures
            output_required_post(self.node_view(), "output"@, r),
    {
        self.0.output_required("output")
    }

    /// Where [`GateControl`](crate::message::GateControl) messages go.
    pub fn input_control(&self) -> (r: Result<Input>)
        ensures
            input_required_post(self.node_view(), "inputControl"@, r),
    {
        self.0.input_required("inputControl")
    }
}

} // verus!
