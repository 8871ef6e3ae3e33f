//! [`Imu`]: `dai::node::IMU`.

use vstd::prelude::*;

use crate::error::Result;
use crate::message::ImuData;
use crate::node::{Node, NodeHandle, NodeType, NodeView, output_required_post};
use crate::port::{Output};

verus! {

/// A `dai::node::IMU`: enable sensors, set batching, read
/// [`ImuData`](crate::message::ImuData) batches from [`out`](Self::out).
#[derive(Debug)]
pub struct Imu(NodeHandle);

impl Clone for Imu {
    fn clone(&self) -> (r: Imu)
        ensures
            r.node_view() == self.node_view(),
    {
        Imu(self.0.clone())
    }
}

impl Node for Imu {
    closed spec fn node_view(&self) -> NodeView {
        self.0@
    }

    fn handle(&self) -> (h: &NodeHandle) {
        &self.0
    }
}

impl NodeType for Imu {
    fn from_handle(handle: NodeHandle) -> (n: Self) {
        Imu(handle)
    }
}

impl Imu {
    pub fn out(&self) -> (r: Result<Output<ImuData>>)
        ensures
            output_required_post(self.node_view(), "out"@, r),
    {
        self.0.output_required("out")
    }
}

} // verus!
