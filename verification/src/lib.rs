//! Safe Rust for Luxonis **depthai-core v3** (OAK cameras), shaped like
//! depthai's own node-graph API: a [`Device`], a [`Pipeline`] of nodes
//! ([`Camera`](node::Camera), [`Sync`](node::Sync),
//! [`StereoDepth`](node::StereoDepth), [`VideoEncoder`](node::VideoEncoder),
//! [`Imu`](node::Imu), ...), [`Output`]s linked to [`Input`]s, host
//! [`OutputQueue`]s, and typed messages ([`ImgFrame`], [`MessageGroup`],
//! [`ImuData`], [`EncodedFrame`]).
//!
//! This crate is the verified host side of that API: the enums and their raw
//! values, the shim's plain records and their conversions, messages and their
//! typing, node port tables and port lookup, and the C-string and time
//! conversions every call goes through. The calls into depthai-core itself are
//! made by the code that links the C shim, which hands this crate the values
//! the shim reports.
//!
//! What this crate deliberately does **not** do: read environment variables,
//! convert timestamps to wall-clock, clamp rates, choose presets, repack strides,
//! or default the unit/spec-translation choices of the calibration getters.
//! Those are policy, and belong to the driver built on top.
#![allow(non_camel_case_types)]

use vstd::prelude::*;

pub mod bootloader;
pub mod calibration;
pub mod device;
pub mod enums;
pub mod error;
pub mod message;
pub mod model_zoo;
pub mod nn_archive;
pub mod node;
pub mod pipeline;
pub mod port;
pub mod queue;
pub mod raw;

pub use bootloader::DeviceBootloader;
pub use calibration::CalibrationHandler;
pub use device::{Device, DeviceInfo};
pub use enums::{
    opt_raw, CameraBoardSocket, CameraModel, Datatype, DeviceState, EncodedFrameProfile,
    EncodedFrameType, ImgFrameType, ImgResizeMode, ImuAccuracy, ImuSensor, LengthUnit, Platform,
    RateControlMode, RawEnum, StereoPresetMode, StorageOrder, TensorDataType, UsbSpeed,
    VideoEncoderProfile, XLinkPlatform, XLinkProtocol,
};
pub use error::{DepthaiError, Result};
pub use message::{
    AnyMessage, EncodedFrame, EncodedFrameInfo, GateControl, ImgDetections, ImgFrame, ImgFrameInfo,
    ImuData, Message, MessageGroup, MessageHeader, NnData, RawTimestamp, TensorInfo,
};
pub use model_zoo::NNModelDescription;
pub use nn_archive::NNArchive;
pub use node::{Node, NodeHandle, NodeType};
pub use pipeline::Pipeline;
pub use port::{Input, Output};
pub use queue::OutputQueue;
pub use raw::DEPTHAI_CORE_TAG;

verus! {

} // verus!
