//! [`StereoDepth`]: `dai::node::StereoDepth`.

use vstd::prelude::*;

use crate::error::Result;
use crate::message::ImgFrame;
use crate::node::{Node, NodeHandle, NodeType, NodeView, input_required_post, output_required_post};
use crate::port::{Input, Output};

verus! {

/// A `dai::node::StereoDepth`: on-device stereo matching.
#[derive(Debug)]
pub struct StereoDepth(NodeHandle);

impl Clone for StereoDepth {
    fn clone(&self) -> (r: StereoDepth)
        ensures
            r.node_view() == self.node_view(),
    {
        StereoDepth(self.0.clone())
    }
}

impl Node for StereoDepth {
    closed spec fn node_view(&self) -> NodeView {
        self.0@
    }

    fn handle(&self) -> (h: &NodeHandle) {
        &self.0
    }
}

impl NodeType for StereoDepth {
    fn from_handle(handle: NodeHandle) -> (n: Self) {
        StereoDepth(handle)
    }
}

impl StereoDepth {
    pub fn left(&self) -> (r: Result<Input>)
        ensures
            input_required_post(self.node_view(), "left"@, r),
    {
        self.0.input_required("left")
    }

    pub fn right(&self) -> (r: Result<Input>)
        ensures
            input_required_post(self.node_view(), "right"@, r),
    {
        self.0.input_required("right")
    }

    /// Feed a stream here to align the depth output to *that output's* grid
    /// (same crop/size/intrinsics), not just to its socket.
    pub fn input_align_to(&self) -> (r: Result<Input>)
        ensures
            input_required_post(self.node_view(), "inputAlignTo"@, r),
    {
        self.0.input_required("inputAlignTo")
    }

    /// Depth in millimetres as `RAW16` (0 = no return).
    pub fn depth(&self) -> (r: Result<Output<ImgFrame>>)
        ensures
            output_required_post(self.node_view(), "depth"@, r),
    {
        self.0.output_required("depth")
    }

    pub fn disparity(&self) -> (r: Result<Output<ImgFrame>>)
        ensures
            output_required_post(self.node_view(), "disparity"@, r),
    {
        self.0.output_required("disparity")
    }

    pub fn rectified_left(&self) -> (r: Result<Output<ImgFrame>>)
        ensures
            output_required_post(self.node_view(), "rectifiedLeft"@, r),
    {
        self.0.output_required("rectifiedLeft")
    }

    pub fn rectified_right(&self) -> (r: Result<Output<ImgFrame>>)
        ensures
            output_required_post(self.node_view(), "rectifiedRight"@, r),
    {
        self.0.output_required("rectifiedRight")
    }

    pub fn synced_left(&self) -> (r: Result<Output<ImgFrame>>)
        ensures
            output_required_post(self.node_view(), "syncedLeft"@, r),
    {
        self.0.output_required("syncedLeft")
    }

    pub fn synced_right(&self) -> (r: Result<Output<ImgFrame>>)
        ensures
            output_required_post(self.node_view(), "syncedRight"@, r),
    {
        self.0.output_required("syncedRight")
    }

    /// `initialConfig->postProcessing` setters.
    pub fn post_processing(&self) -> (p: PostProcessing<'_>)
        ensures
            p.stereo_view() == self.node_view(),
    {
        PostProcessing { node: self }
    }

    pub fn confidence_map(&self) -> (r: Result<Output<ImgFrame>>)
        ensures
            output_required_post(self.node_view(), "confidenceMap"@, r),
    {
        self.0.output_required("confidenceMap")
    }
}

/// The setters on `StereoDepth::initialConfig->postProcessing` of one stereo
/// node (made through the shim).
#[derive(Debug)]
pub struct PostProcessing<'a> {
    node: &'a StereoDepth,
}

impl<'a> PostProcessing<'a> {
    /// The stereo node these settings belong to.
    pub closed spec fn stereo_view(&self) -> NodeView {
        self.node.node_view()
    }

    /// The stereo node these settings belong to.
    pub fn node(&self) -> (n: &'a StereoDepth)
        ensures
            n.node_view() == self.stereo_view(),
    {
        self.node
    }
}

} // verus!
