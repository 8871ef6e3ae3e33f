//! [`NeuralNetwork`]: `dai::node::NeuralNetwork`.

use vstd::prelude::*;

use crate::error::Result;
use crate::message::{AnyMessage, NnData};
use crate::node::{Node, NodeHandle, NodeType, NodeView, input_required_post, output_required_post};
use crate::port::{Input, Output};

verus! {

/// A `dai::node::NeuralNetwork`: runs an NNArchive on the device and emits its
/// raw output tensors as [`NnData`](crate::message::NnData). Decoding is the caller's.
#[derive(Debug)]
pub struct NeuralNetwork(NodeHandle);

impl Clone for NeuralNetwork {
    fn clone(&self) -> (r: NeuralNetwork)
        ensures
            r.node_view() == self.node_view(),
    {
        NeuralNetwork(self.0.clone())
    }
}

impl Node for NeuralNetwork {
    closed spec fn node_view(&self) -> NodeView {
        self.0@
    }

    fn handle(&self) -> (h: &NodeHandle) {
        &self.0
    }
}

impl NodeType for NeuralNetwork {
    fn from_handle(handle: NodeHandle) -> (n: Self) {
        NeuralNetwork(handle)
    }
}

impl NeuralNetwork {
    pub fn input(&self) -> (r: Result<Input>)
        ensures
            input_required_post(self.node_view(), "in"@, r),
    {
        self.0.input_required("in")
    }

    /// Raw output tensors.
    pub fn out(&self) -> (r: Result<Output<NnData>>)
        ensures
            output_required_post(self.node_view(), "out"@, r),
    {
        self.0.output_required("out")
    }

    /// The input frame each inference ran on.
    pub fn passthrough(&self) -> (r: Result<Output<AnyMessage>>)
        ensures
            output_required_post(self.node_view(), "passthrough"@, r),
    {
        self.0.output_required("passthrough")
    }
}

} // verus!
