//! [`VideoEncoder`]: `dai::node::VideoEncoder`.

use vstd::prelude::*;

use crate::error::Result;
use crate::message::{EncodedFrame, ImgFrame};
use crate::node::{Node, NodeHandle, NodeType, NodeView, input_required_post, output_required_post};
use crate::port::{Input, Output};

verus! {

/// A `dai::node::VideoEncoder`, the on-device H.264/H.265/MJPEG encoder. Feed it
/// NV12 (or YUV420p) frames.
#[derive(Debug)]
pub struct VideoEncoder(NodeHandle);

impl Clone for VideoEncoder {
    fn clone(&self) -> (r: VideoEncoder)
        ensures
            r.node_view() == self.node_view(),
    {
        VideoEncoder(self.0.clone())
    }
}

impl Node for VideoEncoder {
    closed spec fn node_view(&self) -> NodeView {
        self.0@
    }

    fn handle(&self) -> (h: &NodeHandle) {
        &self.0
    }
}

impl NodeType for VideoEncoder {
    fn from_handle(handle: NodeHandle) -> (n: Self) {
        VideoEncoder(handle)
    }
}

impl VideoEncoder {
    /// The `in` port.
    pub fn input(&self) -> (r: Result<Input>)
        ensures
            input_required_post(self.node_view(), "in"@, r),
    {
        self.0.input_required("in")
    }

    /// Encoded bytes as an [`ImgFrame`] of type `Bitstream` (Annex-B NAL units).
    pub fn bitstream(&self) -> (r: Result<Output<ImgFrame>>)
        ensures
            output_required_post(self.node_view(), "bitstream"@, r),
    {
        self.0.output_required("bitstream")
    }

    /// Encoded bytes as a typed [`EncodedFrame`] (frame type, profile, ...).
    pub fn out(&self) -> (r: Result<Output<EncodedFrame>>)
        ensures
            output_required_post(self.node_view(), "out"@, r),
    {
        self.0.output_required("out")
    }
}

} // verus!
