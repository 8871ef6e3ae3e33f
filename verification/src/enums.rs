//! Enumerations mirrored from depthai-core.
//!
//! Every enum carries an `Other(i32)` arm: values the device reports that this
//! crate does not name are passed through instead of turned into an error, and
//! you can pass raw depthai values the crate does not name yet. The numeric
//! values are the shim's constants in [`crate::raw`].

use vstd::prelude::*;

use crate::raw::{
    DAI_CAMERA_MODEL_EQUIRECTANGULAR,
    DAI_CAMERA_MODEL_FISHEYE,
    DAI_CAMERA_MODEL_PERSPECTIVE,
    DAI_CAMERA_MODEL_RADIAL_DIVISION,
    DAI_CAM_A,
    DAI_CAM_AUTO,
    DAI_CAM_B,
    DAI_CAM_C,
    DAI_CAM_D,
    DAI_CAM_E,
    DAI_CAM_F,
    DAI_CAM_G,
    DAI_CAM_H,
    DAI_DT_ADATATYPE,
    DAI_DT_BUFFER,
    DAI_DT_ENCODED_FRAME,
    DAI_DT_GATE_CONTROL,
    DAI_DT_IMG_DETECTIONS,
    DAI_DT_IMG_FRAME,
    DAI_DT_IMU_DATA,
    DAI_DT_MESSAGE_GROUP,
    DAI_DT_NN_DATA,
    DAI_ENC_FRAME_B,
    DAI_ENC_FRAME_I,
    DAI_ENC_FRAME_P,
    DAI_ENC_FRAME_UNKNOWN,
    DAI_ENC_PROFILE_AVC,
    DAI_ENC_PROFILE_HEVC,
    DAI_ENC_PROFILE_JPEG,
    DAI_IMG_BGR888I,
    DAI_IMG_BGR888P,
    DAI_IMG_BITSTREAM,
    DAI_IMG_GRAY8,
    DAI_IMG_NONE,
    DAI_IMG_NV12,
    DAI_IMG_RAW16,
    DAI_IMG_RAW8,
    DAI_IMG_RGB888I,
    DAI_IMG_RGB888P,
    DAI_IMG_YUV420P,
    DAI_IMU_ACCELEROMETER_CALIBRATED,
    DAI_IMU_ACCELEROMETER_RAW,
    DAI_IMU_ACCURACY_HIGH,
    DAI_IMU_ACCURACY_LOW,
    DAI_IMU_ACCURACY_MEDIUM,
    DAI_IMU_ACCURACY_UNRELIABLE,
    DAI_IMU_GYROSCOPE_RAW,
    DAI_IMU_MAGNETOMETER_RAW,
    DAI_IMU_ROTATION_VECTOR,
    DAI_LENGTH_CENTIMETER,
    DAI_LENGTH_CUSTOM,
    DAI_LENGTH_FOOT,
    DAI_LENGTH_INCH,
    DAI_LENGTH_METER,
    DAI_LENGTH_MILLIMETER,
    DAI_ORDER_C,
    DAI_ORDER_CHW,
    DAI_ORDER_HWC,
    DAI_ORDER_NC,
    DAI_ORDER_NCHW,
    DAI_ORDER_NHCW,
    DAI_ORDER_NHWC,
    DAI_PLATFORM_RVC2,
    DAI_PLATFORM_RVC3,
    DAI_PLATFORM_RVC4,
    DAI_RESIZE_CROP,
    DAI_RESIZE_LETTERBOX,
    DAI_RESIZE_STRETCH,
    DAI_STEREO_PRESET_ACCURACY,
    DAI_STEREO_PRESET_DEFAULT,
    DAI_STEREO_PRESET_DENSITY,
    DAI_STEREO_PRESET_FACE,
    DAI_STEREO_PRESET_FAST_ACCURACY,
    DAI_STEREO_PRESET_FAST_DENSITY,
    DAI_STEREO_PRESET_HIGH_DETAIL,
    DAI_STEREO_PRESET_ROBOTICS,
    DAI_TENSOR_FP16,
    DAI_TENSOR_FP32,
    DAI_TENSOR_FP64,
    DAI_TENSOR_I8,
    DAI_TENSOR_INT,
    DAI_TENSOR_U16F,
    DAI_TENSOR_U8F,
    DAI_USB_FULL,
    DAI_USB_HIGH,
    DAI_USB_LOW,
    DAI_USB_SUPER,
    DAI_USB_SUPER_PLUS,
    DAI_USB_UNKNOWN,
    DAI_VENC_H264_BASELINE,
    DAI_VENC_H264_HIGH,
    DAI_VENC_H264_MAIN,
    DAI_VENC_H265_MAIN,
    DAI_VENC_MJPEG,
    DAI_VENC_RC_CBR,
    DAI_VENC_RC_VBR,
    DAI_XLINK_PLATFORM_ANY,
    DAI_XLINK_PLATFORM_MYRIAD_2,
    DAI_XLINK_PLATFORM_MYRIAD_X,
    DAI_XLINK_PLATFORM_RVC3,
    DAI_XLINK_PLATFORM_RVC4,
    DAI_XLINK_PROTOCOL_ANY,
    DAI_XLINK_PROTOCOL_IPC,
    DAI_XLINK_PROTOCOL_LOCAL_SHDMEM,
    DAI_XLINK_PROTOCOL_PCIE,
    DAI_XLINK_PROTOCOL_TCP_IP,
    DAI_XLINK_PROTOCOL_TCP_IP_OR_LOCAL_SHDMEM,
    DAI_XLINK_PROTOCOL_USB_CDC,
    DAI_XLINK_PROTOCOL_USB_EP,
    DAI_XLINK_PROTOCOL_USB_VSC,
    DAI_XLINK_STATE_ANY,
    DAI_XLINK_STATE_BOOTED,
    DAI_XLINK_STATE_BOOTLOADER,
    DAI_XLINK_STATE_FLASH_BOOTED,
    DAI_XLINK_STATE_UNBOOTED,
};

verus! {

/// The numeric model shared by every depthai enum: how a value maps to its
/// depthai-core integer and back.
pub trait RawEnum: Sized + Copy {
    /// The depthai-core integer of `self`.
    spec fn raw_of(self) -> i32;

    /// The value that names `v`: the named variant whose constant is `v`, or
    /// `Other(v)` when no variant names it.
    spec fn of_raw(v: i32) -> Self;

    /// The values `of_raw` produces: every named variant, and `Other(v)` for
    /// the `v` that no variant names.
    spec fn is_canonical(self) -> bool;

    /// The depthai-core integer of `self` (what the inherent `to_raw` returns).
    fn raw(self) -> (r: i32)
        ensures
            r == self.raw_of(),
    ;

    /// Reading an integer and writing it back gives the same integer, and the
    /// value read is canonical.
    proof fn lemma_raw_round_trip(v: i32)
        ensures
            Self::of_raw(v).raw_of() == v,
            Self::of_raw(v).is_canonical(),
    ;

    /// Writing a value and reading it back gives the same value exactly when
    /// the value is canonical (`Other(v)` for a named `v` reads back as the
    /// named variant).
    proof fn lemma_value_round_trip(e: Self)
        ensures
            Self::of_raw(e.raw_of()) == e <==> e.is_canonical(),
    ;
}

/// `dai::CameraBoardSocket`. On an OAK-D: `CamA` = colour, `CamB` = left mono,
/// `CamC` = right mono.
#[derive(Debug, Clone, Copy, PartialEq, Eq, Structural, Hash)]
pub enum CameraBoardSocket {
    Auto,
    CamA,
    CamB,
    CamC,
    CamD,
    CamE,
    CamF,
    CamG,
    CamH,
    /// A value this crate does not name; carried through verbatim.
    Other(i32),
}

impl RawEnum for CameraBoardSocket {
    open spec fn raw_of(self) -> i32 {
        match self {
            CameraBoardSocket::Auto => DAI_CAM_AUTO,
            CameraBoardSocket::CamA => DAI_CAM_A,
            CameraBoardSocket::CamB => DAI_CAM_B,
            CameraBoardSocket::CamC => DAI_CAM_C,
            CameraBoardSocket::CamD => DAI_CAM_D,
            CameraBoardSocket::CamE => DAI_CAM_E,
            CameraBoardSocket::CamF => DAI_CAM_F,
            CameraBoardSocket::CamG => DAI_CAM_G,
            CameraBoardSocket::CamH => DAI_CAM_H,
            CameraBoardSocket::Other(v) => v,
        }
    }

    open spec fn of_raw(v: i32) -> Self {
        if v == DAI_CAM_AUTO {
            CameraBoardSocket::Auto
        } else if v == DAI_CAM_A {
            CameraBoardSocket::CamA
        } else if v == DAI_CAM_B {
            CameraBoardSocket::CamB
        } else if v == DAI_CAM_C {
            CameraBoardSocket::CamC
        } else if v == DAI_CAM_D {
            CameraBoardSocket::CamD
        } else if v == DAI_CAM_E {
            CameraBoardSocket::CamE
        } else if v == DAI_CAM_F {
            CameraBoardSocket::CamF
        } else if v == DAI_CAM_G {
            CameraBoardSocket::CamG
        } else if v == DAI_CAM_H {
            CameraBoardSocket::CamH
        } else {
            CameraBoardSocket::Other(v)
        }
    }

    open spec fn is_canonical(self) -> bool {
        match self {
            CameraBoardSocket::Other(v) => v != DAI_CAM_AUTO && v != DAI_CAM_A && v != DAI_CAM_B && v != DAI_CAM_C && v != DAI_CAM_D && v != DAI_CAM_E && v != DAI_CAM_F && v != DAI_CAM_G && v != DAI_CAM_H,
            _ => true,
        }
    }

    fn raw(self) -> (r: i32) {
        self.to_raw()
    }

    proof fn lemma_raw_round_trip(v: i32) {
    }

    proof fn lemma_value_round_trip(e: Self) {
    }
}

impl CameraBoardSocket {
    /// The depthai-core numeric value.
    pub fn to_raw(self) -> (r: i32)
        ensures
            r == self.raw_of(),
    {
        match self {
            CameraBoardSocket::Auto => DAI_CAM_AUTO,
            CameraBoardSocket::CamA => DAI_CAM_A,
            CameraBoardSocket::CamB => DAI_CAM_B,
            CameraBoardSocket::CamC => DAI_CAM_C,
            CameraBoardSocket::CamD => DAI_CAM_D,
            CameraBoardSocket::CamE => DAI_CAM_E,
            CameraBoardSocket::CamF => DAI_CAM_F,
            CameraBoardSocket::CamG => DAI_CAM_G,
            CameraBoardSocket::CamH => DAI_CAM_H,
            CameraBoardSocket::Other(v) => v,
        }
    }

    /// From the depthai-core numeric value (never fails).
    pub fn from_raw(v: i32) -> (r: Self)
        ensures
            r == Self::of_raw(v),
    {
        if v == DAI_CAM_AUTO {
            CameraBoardSocket::Auto
        } else if v == DAI_CAM_A {
            CameraBoardSocket::CamA
        } else if v == DAI_CAM_B {
            CameraBoardSocket::CamB
        } else if v == DAI_CAM_C {
            CameraBoardSocket::CamC
        } else if v == DAI_CAM_D {
            CameraBoardSocket::CamD
        } else if v == DAI_CAM_E {
            CameraBoardSocket::CamE
        } else if v == DAI_CAM_F {
            CameraBoardSocket::CamF
        } else if v == DAI_CAM_G {
            CameraBoardSocket::CamG
        } else if v == DAI_CAM_H {
            CameraBoardSocket::CamH
        } else {
            CameraBoardSocket::Other(v)
        }
    }
}

impl From<CameraBoardSocket> for i32 {
    fn from(v: CameraBoardSocket) -> (r: i32) {
        v.to_raw()
    }
}

impl vstd::std_specs::convert::FromSpecImpl<CameraBoardSocket> for i32 {
    open spec fn obeys_from_spec() -> bool {
        true
    }

    open spec fn from_spec(v: CameraBoardSocket) -> i32 {
        v.raw_of()
    }
}

impl From<i32> for CameraBoardSocket {
    fn from(v: i32) -> (r: CameraBoardSocket) {
        CameraBoardSocket::from_raw(v)
    }
}

impl vstd::std_specs::convert::FromSpecImpl<i32> for CameraBoardSocket {
    open spec fn obeys_from_spec() -> bool {
        true
    }

    open spec fn from_spec(v: i32) -> CameraBoardSocket {
        CameraBoardSocket::of_raw(v)
    }
}

/// `dai::UsbSpeed`.
#[derive(Debug, Clone, Copy, PartialEq, Eq, Structural, Hash)]
pub enum UsbSpeed {
    Unknown,
    Low,
    Full,
    /// USB 2.
    High,
    /// USB 3.
    Super,
    SuperPlus,
    /// A value this crate does not name; carried through verbatim.
    Other(i32),
}

impl RawEnum for UsbSpeed {
    open spec fn raw_of(self) -> i32 {
        match self {
            UsbSpeed::Unknown => DAI_USB_UNKNOWN,
            UsbSpeed::Low => DAI_USB_LOW,
            UsbSpeed::Full => DAI_USB_FULL,
            UsbSpeed::High => DAI_USB_HIGH,
            UsbSpeed::Super => DAI_USB_SUPER,
            UsbSpeed::SuperPlus => DAI_USB_SUPER_PLUS,
            UsbSpeed::Other(v) => v,
        }
    }

    open spec fn of_raw(v: i32) -> Self {
        if v == DAI_USB_UNKNOWN {
            UsbSpeed::Unknown
        } else if v == DAI_USB_LOW {
            UsbSpeed::Low
        } else if v == DAI_USB_FULL {
            UsbSpeed::Full
        } else if v == DAI_USB_HIGH {
            UsbSpeed::High
        } else if v == DAI_USB_SUPER {
            UsbSpeed::Super
        } else if v == DAI_USB_SUPER_PLUS {
            UsbSpeed::SuperPlus
        } else {
            UsbSpeed::Other(v)
        }
    }

    open spec fn is_canonical(self) -> bool {
        match self {
            UsbSpeed::Other(v) => v != DAI_USB_UNKNOWN && v != DAI_USB_LOW && v != DAI_USB_FULL && v != DAI_USB_HIGH && v != DAI_USB_SUPER && v != DAI_USB_SUPER_PLUS,
            _ => true,
        }
    }

    fn raw(self) -> (r: i32) {
        self.to_raw()
    }

    proof fn lemma_raw_round_trip(v: i32) {
    }

    proof fn lemma_value_round_trip(e: Self) {
    }
}

impl UsbSpeed {
    /// The depthai-core numeric value.
    pub fn to_raw(self) -> (r: i32)
        ensures
            r == self.raw_of(),
    {
        match self {
            UsbSpeed::Unknown => DAI_USB_UNKNOWN,
            UsbSpeed::Low => DAI_USB_LOW,
            UsbSpeed::Full => DAI_USB_FULL,
            UsbSpeed::High => DAI_USB_HIGH,
            UsbSpeed::Super => DAI_USB_SUPER,
            UsbSpeed::SuperPlus => DAI_USB_SUPER_PLUS,
            UsbSpeed::Other(v) => v,
        }
    }

    /// From the depthai-core numeric value (never fails).
    pub fn from_raw(v: i32) -> (r: Self)
        ensures
            r == Self::of_raw(v),
    {
        if v == DAI_USB_UNKNOWN {
            UsbSpeed::Unknown
        } else if v == DAI_USB_LOW {
            UsbSpeed::Low
        } else if v == DAI_USB_FULL {
            UsbSpeed::Full
        } else if v == DAI_USB_HIGH {
            UsbSpeed::High
        } else if v == DAI_USB_SUPER {
            UsbSpeed::Super
        } else if v == DAI_USB_SUPER_PLUS {
            UsbSpeed::SuperPlus
        } else {
            UsbSpeed::Other(v)
        }
    }
}

impl From<UsbSpeed> for i32 {
    fn from(v: UsbSpeed) -> (r: i32) {
        v.to_raw()
    }
}

impl vstd::std_specs::convert::FromSpecImpl<UsbSpeed> for i32 {
    open spec fn obeys_from_spec() -> bool {
        true
    }

    open spec fn from_spec(v: UsbSpeed) -> i32 {
        v.raw_of()
    }
}

impl From<i32> for UsbSpeed {
    fn from(v: i32) -> (r: UsbSpeed) {
        UsbSpeed::from_raw(v)
    }
}

impl vstd::std_specs::convert::FromSpecImpl<i32> for UsbSpeed {
    open spec fn obeys_from_spec() -> bool {
        true
    }

    open spec fn from_spec(v: i32) -> UsbSpeed {
        UsbSpeed::of_raw(v)
    }
}

/// `dai::ImgResizeMode`.
#[derive(Debug, Clone, Copy, PartialEq, Eq, Structural, Hash)]
pub enum ImgResizeMode {
    Crop,
    Stretch,
    Letterbox,
    /// A value this crate does not name; carried through verbatim.
    Other(i32),
}

impl RawEnum for ImgResizeMode {
    open spec fn raw_of(self) -> i32 {
        match self {
            ImgResizeMode::Crop => DAI_RESIZE_CROP,
            ImgResizeMode::Stretch => DAI_RESIZE_STRETCH,
            ImgResizeMode::Letterbox => DAI_RESIZE_LETTERBOX,
            ImgResizeMode::Other(v) => v,
        }
    }

    open spec fn of_raw(v: i32) -> Self {
        if v == DAI_RESIZE_CROP {
            ImgResizeMode::Crop
        } else if v == DAI_RESIZE_STRETCH {
            ImgResizeMode::Stretch
        } else if v == DAI_RESIZE_LETTERBOX {
            ImgResizeMode::Letterbox
        } else {
            ImgResizeMode::Other(v)
        }
    }

    open spec fn is_canonical(self) -> bool {
        match self {
            ImgResizeMode::Other(v) => v != DAI_RESIZE_CROP && v != DAI_RESIZE_STRETCH && v != DAI_RESIZE_LETTERBOX,
            _ => true,
        }
    }

    fn raw(self) -> (r: i32) {
        self.to_raw()
    }

    proof fn lemma_raw_round_trip(v: i32) {
    }

    proof fn lemma_value_round_trip(e: Self) {
    }
}

impl ImgResizeMode {
    /// The depthai-core numeric value.
    pub fn to_raw(self) -> (r: i32)
        ensures
            r == self.raw_of(),
    {
        match self {
            ImgResizeMode::Crop => DAI_RESIZE_CROP,
            ImgResizeMode::Stretch => DAI_RESIZE_STRETCH,
            ImgResizeMode::Letterbox => DAI_RESIZE_LETTERBOX,
            ImgResizeMode::Other(v) => v,
        }
    }

    /// From the depthai-core numeric value (never fails).
    pub fn from_raw(v: i32) -> (r: Self)
        ensures
            r == Self::of_raw(v),
    {
        if v == DAI_RESIZE_CROP {
            ImgResizeMode::Crop
        } else if v == DAI_RESIZE_STRETCH {
            ImgResizeMode::Stretch
        } else if v == DAI_RESIZE_LETTERBOX {
            ImgResizeMode::Letterbox
        } else {
            ImgResizeMode::Other(v)
        }
    }
}

impl From<ImgResizeMode> for i32 {
    fn from(v: ImgResizeMode) -> (r: i32) {
        v.to_raw()
    }
}

impl vstd::std_specs::convert::FromSpecImpl<ImgResizeMode> for i32 {
    open spec fn obeys_from_spec() -> bool {
        true
    }

    open spec fn from_spec(v: ImgResizeMode) -> i32 {
        v.raw_of()
    }
}

impl From<i32> for ImgResizeMode {
    fn from(v: i32) -> (r: ImgResizeMode) {
        ImgResizeMode::from_raw(v)
    }
}

impl vstd::std_specs::convert::FromSpecImpl<i32> for ImgResizeMode {
    open spec fn obeys_from_spec() -> bool {
        true
    }

    open spec fn from_spec(v: i32) -> ImgResizeMode {
        ImgResizeMode::of_raw(v)
    }
}

/// `dai::ImgFrame::Type` (the members this crate names; others pass through).
#[derive(Debug, Clone, Copy, PartialEq, Eq, Structural, Hash)]
pub enum ImgFrameType {
    Yuv420p,
    Rgb888p,
    Bgr888p,
    /// Interleaved RGB, 3 bytes per pixel.
    Rgb888i,
    Bgr888i,
    /// 16-bit raw / depth in millimetres.
    Raw16,
    Raw8,
    Nv12,
    /// Encoder output (H.264/H.265/MJPEG bytes).
    Bitstream,
    /// 8-bit grayscale, 1 byte per pixel.
    Gray8,
    /// `ImgFrame::Type::NONE`: no type set.
    NoneType,
    /// A value this crate does not name; carried through verbatim.
    Other(i32),
}

impl RawEnum for ImgFrameType {
    open spec fn raw_of(self) -> i32 {
        match self {
            ImgFrameType::Yuv420p => DAI_IMG_YUV420P,
            ImgFrameType::Rgb888p => DAI_IMG_RGB888P,
            ImgFrameType::Bgr888p => DAI_IMG_BGR888P,
            ImgFrameType::Rgb888i => DAI_IMG_RGB888I,
            ImgFrameType::Bgr888i => DAI_IMG_BGR888I,
            ImgFrameType::Raw16 => DAI_IMG_RAW16,
            ImgFrameType::Raw8 => DAI_IMG_RAW8,
            ImgFrameType::Nv12 => DAI_IMG_NV12,
            ImgFrameType::Bitstream => DAI_IMG_BITSTREAM,
            ImgFrameType::Gray8 => DAI_IMG_GRAY8,
            ImgFrameType::NoneType => DAI_IMG_NONE,
            ImgFrameType::Other(v) => v,
        }
    }

    open spec fn of_raw(v: i32) -> Self {
        if v == DAI_IMG_YUV420P {
            ImgFrameType::Yuv420p
        } else if v == DAI_IMG_RGB888P {
            ImgFrameType::Rgb888p
        } else if v == DAI_IMG_BGR888P {
            ImgFrameType::Bgr888p
        } else if v == DAI_IMG_RGB888I {
            ImgFrameType::Rgb888i
        } else if v == DAI_IMG_BGR888I {
            ImgFrameType::Bgr888i
        } else if v == DAI_IMG_RAW16 {
            ImgFrameType::Raw16
        } else if v == DAI_IMG_RAW8 {
            ImgFrameType::Raw8
        } else if v == DAI_IMG_NV12 {
            ImgFrameType::Nv12
        } else if v == DAI_IMG_BITSTREAM {
            ImgFrameType::Bitstream
        } else if v == DAI_IMG_GRAY8 {
            ImgFrameType::Gray8
        } else if v == DAI_IMG_NONE {
            ImgFrameType::NoneType
        } else {
            ImgFrameType::Other(v)
        }
    }

    open spec fn is_canonical(self) -> bool {
        match self {
            ImgFrameType::Other(v) => v != DAI_IMG_YUV420P && v != DAI_IMG_RGB888P && v != DAI_IMG_BGR888P && v != DAI_IMG_RGB888I && v != DAI_IMG_BGR888I && v != DAI_IMG_RAW16 && v != DAI_IMG_RAW8 && v != DAI_IMG_NV12 && v != DAI_IMG_BITSTREAM && v != DAI_IMG_GRAY8 && v != DAI_IMG_NONE,
            _ => true,
        }
    }

    fn raw(self) -> (r: i32) {
        self.to_raw()
    }

    proof fn lemma_raw_round_trip(v: i32) {
    }

    proof fn lemma_value_round_trip(e: Self) {
    }
}

impl ImgFrameType {
    /// The depthai-core numeric value.
    pub fn to_raw(self) -> (r: i32)
        ensures
            r == self.raw_of(),
    {
        match self {
            ImgFrameType::Yuv420p => DAI_IMG_YUV420P,
            ImgFrameType::Rgb888p => DAI_IMG_RGB888P,
            ImgFrameType::Bgr888p => DAI_IMG_BGR888P,
            ImgFrameType::Rgb888i => DAI_IMG_RGB888I,
            ImgFrameType::Bgr888i => DAI_IMG_BGR888I,
            ImgFrameType::Raw16 => DAI_IMG_RAW16,
            ImgFrameType::Raw8 => DAI_IMG_RAW8,
            ImgFrameType::Nv12 => DAI_IMG_NV12,
            ImgFrameType::Bitstream => DAI_IMG_BITSTREAM,
            ImgFrameType::Gray8 => DAI_IMG_GRAY8,
            ImgFrameType::NoneType => DAI_IMG_NONE,
            ImgFrameType::Other(v) => v,
        }
    }

    /// From the depthai-core numeric value (never fails).
    pub fn from_raw(v: i32) -> (r: Self)
        ensures
            r == Self::of_raw(v),
    {
        if v == DAI_IMG_YUV420P {
            ImgFrameType::Yuv420p
        } else if v == DAI_IMG_RGB888P {
            ImgFrameType::Rgb888p
        } else if v == DAI_IMG_BGR888P {
            ImgFrameType::Bgr888p
        } else if v == DAI_IMG_RGB888I {
            ImgFrameType::Rgb888i
        } else if v == DAI_IMG_BGR888I {
            ImgFrameType::Bgr888i
        } else if v == DAI_IMG_RAW16 {
            ImgFrameType::Raw16
        } else if v == DAI_IMG_RAW8 {
            ImgFrameType::Raw8
        } else if v == DAI_IMG_NV12 {
            ImgFrameType::Nv12
        } else if v == DAI_IMG_BITSTREAM {
            ImgFrameType::Bitstream
        } else if v == DAI_IMG_GRAY8 {
            ImgFrameType::Gray8
        } else if v == DAI_IMG_NONE {
            ImgFrameType::NoneType
        } else {
            ImgFrameType::Other(v)
        }
    }
}

impl From<ImgFrameType> for i32 {
    fn from(v: ImgFrameType) -> (r: i32) {
        v.to_raw()
    }
}

impl vstd::std_specs::convert::FromSpecImpl<ImgFrameType> for i32 {
    open spec fn obeys_from_spec() -> bool {
        true
    }

    open spec fn from_spec(v: ImgFrameType) -> i32 {
        v.raw_of()
    }
}

impl From<i32> for ImgFrameType {
    fn from(v: i32) -> (r: ImgFrameType) {
        ImgFrameType::from_raw(v)
    }
}

impl vstd::std_specs::convert::FromSpecImpl<i32> for ImgFrameType {
    open spec fn obeys_from_spec() -> bool {
        true
    }

    open spec fn from_spec(v: i32) -> ImgFrameType {
        ImgFrameType::of_raw(v)
    }
}

/// `dai::DatatypeEnum` (the members this crate names).
#[derive(Debug, Clone, Copy, PartialEq, Eq, Structural, Hash)]
pub enum Datatype {
    ADatatype,
    Buffer,
    ImgFrame,
    EncodedFrame,
    GateControl,
    NnData,
    ImgDetections,
    ImuData,
    MessageGroup,
    /// A value this crate does not name; carried through verbatim.
    Other(i32),
}

impl RawEnum for Datatype {
    open spec fn raw_of(self) -> i32 {
        match self {
            Datatype::ADatatype => DAI_DT_ADATATYPE,
            Datatype::Buffer => DAI_DT_BUFFER,
            Datatype::ImgFrame => DAI_DT_IMG_FRAME,
            Datatype::EncodedFrame => DAI_DT_ENCODED_FRAME,
            Datatype::GateControl => DAI_DT_GATE_CONTROL,
            Datatype::NnData => DAI_DT_NN_DATA,
            Datatype::ImgDetections => DAI_DT_IMG_DETECTIONS,
            Datatype::ImuData => DAI_DT_IMU_DATA,
            Datatype::MessageGroup => DAI_DT_MESSAGE_GROUP,
            Datatype::Other(v) => v,
        }
    }

    open spec fn of_raw(v: i32) -> Self {
        if v == DAI_DT_ADATATYPE {
            Datatype::ADatatype
        } else if v == DAI_DT_BUFFER {
            Datatype::Buffer
        } else if v == DAI_DT_IMG_FRAME {
            Datatype::ImgFrame
        } else if v == DAI_DT_ENCODED_FRAME {
            Datatype::EncodedFrame
        } else if v == DAI_DT_GATE_CONTROL {
            Datatype::GateControl
        } else if v == DAI_DT_NN_DATA {
            Datatype::NnData
        } else if v == DAI_DT_IMG_DETECTIONS {
            Datatype::ImgDetections
        } else if v == DAI_DT_IMU_DATA {
            Datatype::ImuData
        } else if v == DAI_DT_MESSAGE_GROUP {
            Datatype::MessageGroup
        } else {
            Datatype::Other(v)
        }
    }

    open spec fn is_canonical(self) -> bool {
        match self {
            Datatype::Other(v) => v != DAI_DT_ADATATYPE && v != DAI_DT_BUFFER && v != DAI_DT_IMG_FRAME && v != DAI_DT_ENCODED_FRAME && v != DAI_DT_GATE_CONTROL && v != DAI_DT_NN_DATA && v != DAI_DT_IMG_DETECTIONS && v != DAI_DT_IMU_DATA && v != DAI_DT_MESSAGE_GROUP,
            _ => true,
        }
    }

    fn raw(self) -> (r: i32) {
        self.to_raw()
    }

    proof fn lemma_raw_round_trip(v: i32) {
    }

    proof fn lemma_value_round_trip(e: Self) {
    }
}

impl Datatype {
    /// The depthai-core numeric value.
    pub fn to_raw(self) -> (r: i32)
        ensures
            r == self.raw_of(),
    {
        match self {
            Datatype::ADatatype => DAI_DT_ADATATYPE,
            Datatype::Buffer => DAI_DT_BUFFER,
            Datatype::ImgFrame => DAI_DT_IMG_FRAME,
            Datatype::EncodedFrame => DAI_DT_ENCODED_FRAME,
            Datatype::GateControl => DAI_DT_GATE_CONTROL,
            Datatype::NnData => DAI_DT_NN_DATA,
            Datatype::ImgDetections => DAI_DT_IMG_DETECTIONS,
            Datatype::ImuData => DAI_DT_IMU_DATA,
            Datatype::MessageGroup => DAI_DT_MESSAGE_GROUP,
            Datatype::Other(v) => v,
        }
    }

    /// From the depthai-core numeric value (never fails).
    pub fn from_raw(v: i32) -> (r: Self)
        ensures
            r == Self::of_raw(v),
    {
        if v == DAI_DT_ADATATYPE {
            Datatype::ADatatype
        } else if v == DAI_DT_BUFFER {
            Datatype::Buffer
        } else if v == DAI_DT_IMG_FRAME {
            Datatype::ImgFrame
        } else if v == DAI_DT_ENCODED_FRAME {
            Datatype::EncodedFrame
        } else if v == DAI_DT_GATE_CONTROL {
            Datatype::GateControl
        } else if v == DAI_DT_NN_DATA {
            Datatype::NnData
        } else if v == DAI_DT_IMG_DETECTIONS {
            Datatype::ImgDetections
        } else if v == DAI_DT_IMU_DATA {
            Datatype::ImuData
        } else if v == DAI_DT_MESSAGE_GROUP {
            Datatype::MessageGroup
        } else {
            Datatype::Other(v)
        }
    }
}

impl From<Datatype> for i32 {
    fn from(v: Datatype) -> (r: i32) {
        v.to_raw()
    }
}

impl vstd::std_specs::convert::FromSpecImpl<Datatype> for i32 {
    open spec fn obeys_from_spec() -> bool {
        true
    }

    open spec fn from_spec(v: Datatype) -> i32 {
        v.raw_of()
    }
}

impl From<i32> for Datatype {
    fn from(v: i32) -> (r: Datatype) {
        Datatype::from_raw(v)
    }
}

impl vstd::std_specs::convert::FromSpecImpl<i32> for Datatype {
    open spec fn obeys_from_spec() -> bool {
        true
    }

    open spec fn from_spec(v: i32) -> Datatype {
        Datatype::of_raw(v)
    }
}

/// `dai::CameraModel`: the lens model a calibration was fitted with.
#[derive(Debug, Clone, Copy, PartialEq, Eq, Structural, Hash)]
pub enum CameraModel {
    Perspective,
    Fisheye,
    Equirectangular,
    RadialDivision,
    /// A value this crate does not name; carried through verbatim.
    Other(i32),
}

impl RawEnum for CameraModel {
    open spec fn raw_of(self) -> i32 {
        match self {
            CameraModel::Perspective => DAI_CAMERA_MODEL_PERSPECTIVE,
            CameraModel::Fisheye => DAI_CAMERA_MODEL_FISHEYE,
            CameraModel::Equirectangular => DAI_CAMERA_MODEL_EQUIRECTANGULAR,
            CameraModel::RadialDivision => DAI_CAMERA_MODEL_RADIAL_DIVISION,
            CameraModel::Other(v) => v,
        }
    }

    open spec fn of_raw(v: i32) -> Self {
        if v == DAI_CAMERA_MODEL_PERSPECTIVE {
            CameraModel::Perspective
        } else if v == DAI_CAMERA_MODEL_FISHEYE {
            CameraModel::Fisheye
        } else if v == DAI_CAMERA_MODEL_EQUIRECTANGULAR {
            CameraModel::Equirectangular
        } else if v == DAI_CAMERA_MODEL_RADIAL_DIVISION {
            CameraModel::RadialDivision
        } else {
            CameraModel::Other(v)
        }
    }

    open spec fn is_canonical(self) -> bool {
        match self {
            CameraModel::Other(v) => v != DAI_CAMERA_MODEL_PERSPECTIVE && v != DAI_CAMERA_MODEL_FISHEYE && v != DAI_CAMERA_MODEL_EQUIRECTANGULAR && v != DAI_CAMERA_MODEL_RADIAL_DIVISION,
            _ => true,
        }
    }

    fn raw(self) -> (r: i32) {
        self.to_raw()
    }

    proof fn lemma_raw_round_trip(v: i32) {
    }

    proof fn lemma_value_round_trip(e: Self) {
    }
}

impl CameraModel {
    /// The depthai-core numeric value.
    pub fn to_raw(self) -> (r: i32)
        ensures
            r == self.raw_of(),
    {
        match self {
            CameraModel::Perspective => DAI_CAMERA_MODEL_PERSPECTIVE,
            CameraModel::Fisheye => DAI_CAMERA_MODEL_FISHEYE,
            CameraModel::Equirectangular => DAI_CAMERA_MODEL_EQUIRECTANGULAR,
            CameraModel::RadialDivision => DAI_CAMERA_MODEL_RADIAL_DIVISION,
            CameraModel::Other(v) => v,
        }
    }

    /// From the depthai-core numeric value (never fails).
    pub fn from_raw(v: i32) -> (r: Self)
        ensures
            r == Self::of_raw(v),
    {
        if v == DAI_CAMERA_MODEL_PERSPECTIVE {
            CameraModel::Perspective
        } else if v == DAI_CAMERA_MODEL_FISHEYE {
            CameraModel::Fisheye
        } else if v == DAI_CAMERA_MODEL_EQUIRECTANGULAR {
            CameraModel::Equirectangular
        } else if v == DAI_CAMERA_MODEL_RADIAL_DIVISION {
            CameraModel::RadialDivision
        } else {
            CameraModel::Other(v)
        }
    }
}

impl From<CameraModel> for i32 {
    fn from(v: CameraModel) -> (r: i32) {
        v.to_raw()
    }
}

impl vstd::std_specs::convert::FromSpecImpl<CameraModel> for i32 {
    open spec fn obeys_from_spec() -> bool {
        true
    }

    open spec fn from_spec(v: CameraModel) -> i32 {
        v.raw_of()
    }
}

impl From<i32> for CameraModel {
    fn from(v: i32) -> (r: CameraModel) {
        CameraModel::from_raw(v)
    }
}

impl vstd::std_specs::convert::FromSpecImpl<i32> for CameraModel {
    open spec fn obeys_from_spec() -> bool {
        true
    }

    open spec fn from_spec(v: i32) -> CameraModel {
        CameraModel::of_raw(v)
    }
}

/// `dai::LengthUnit` for extrinsic translations.
#[derive(Debug, Clone, Copy, PartialEq, Eq, Structural, Hash)]
pub enum LengthUnit {
    Meter,
    Centimeter,
    Millimeter,
    Inch,
    Foot,
    Custom,
    /// A value this crate does not name; carried through verbatim.
    Other(i32),
}

impl RawEnum for LengthUnit {
    open spec fn raw_of(self) -> i32 {
        match self {
            LengthUnit::Meter => DAI_LENGTH_METER,
            LengthUnit::Centimeter => DAI_LENGTH_CENTIMETER,
            LengthUnit::Millimeter => DAI_LENGTH_MILLIMETER,
            LengthUnit::Inch => DAI_LENGTH_INCH,
            LengthUnit::Foot => DAI_LENGTH_FOOT,
            LengthUnit::Custom => DAI_LENGTH_CUSTOM,
            LengthUnit::Other(v) => v,
        }
    }

    open spec fn of_raw(v: i32) -> Self {
        if v == DAI_LENGTH_METER {
            LengthUnit::Meter
        } else if v == DAI_LENGTH_CENTIMETER {
            LengthUnit::Centimeter
        } else if v == DAI_LENGTH_MILLIMETER {
            LengthUnit::Millimeter
        } else if v == DAI_LENGTH_INCH {
            LengthUnit::Inch
        } else if v == DAI_LENGTH_FOOT {
            LengthUnit::Foot
        } else if v == DAI_LENGTH_CUSTOM {
            LengthUnit::Custom
        } else {
            LengthUnit::Other(v)
        }
    }

    open spec fn is_canonical(self) -> bool {
        match self {
            LengthUnit::Other(v) => v != DAI_LENGTH_METER && v != DAI_LENGTH_CENTIMETER && v != DAI_LENGTH_MILLIMETER && v != DAI_LENGTH_INCH && v != DAI_LENGTH_FOOT && v != DAI_LENGTH_CUSTOM,
            _ => true,
        }
    }

    fn raw(self) -> (r: i32) {
        self.to_raw()
    }

    proof fn lemma_raw_round_trip(v: i32) {
    }

    proof fn lemma_value_round_trip(e: Self) {
    }
}

impl LengthUnit {
    /// The depthai-core numeric value.
    pub fn to_raw(self) -> (r: i32)
        ensures
            r == self.raw_of(),
    {
        match self {
            LengthUnit::Meter => DAI_LENGTH_METER,
            LengthUnit::Centimeter => DAI_LENGTH_CENTIMETER,
            LengthUnit::Millimeter => DAI_LENGTH_MILLIMETER,
            LengthUnit::Inch => DAI_LENGTH_INCH,
            LengthUnit::Foot => DAI_LENGTH_FOOT,
            LengthUnit::Custom => DAI_LENGTH_CUSTOM,
            LengthUnit::Other(v) => v,
        }
    }

    /// From the depthai-core numeric value (never fails).
    pub fn from_raw(v: i32) -> (r: Self)
        ensures
            r == Self::of_raw(v),
    {
        if v == DAI_LENGTH_METER {
            LengthUnit::Meter
        } else if v == DAI_LENGTH_CENTIMETER {
            LengthUnit::Centimeter
        } else if v == DAI_LENGTH_MILLIMETER {
            LengthUnit::Millimeter
        } else if v == DAI_LENGTH_INCH {
            LengthUnit::Inch
        } else if v == DAI_LENGTH_FOOT {
            LengthUnit::Foot
        } else if v == DAI_LENGTH_CUSTOM {
            LengthUnit::Custom
        } else {
            LengthUnit::Other(v)
        }
    }
}

impl From<LengthUnit> for i32 {
    fn from(v: LengthUnit) -> (r: i32) {
        v.to_raw()
    }
}

impl vstd::std_specs::convert::FromSpecImpl<LengthUnit> for i32 {
    open spec fn obeys_from_spec() -> bool {
        true
    }

    open spec fn from_spec(v: LengthUnit) -> i32 {
        v.raw_of()
    }
}

impl From<i32> for LengthUnit {
    fn from(v: i32) -> (r: LengthUnit) {
        LengthUnit::from_raw(v)
    }
}

impl vstd::std_specs::convert::FromSpecImpl<i32> for LengthUnit {
    open spec fn obeys_from_spec() -> bool {
        true
    }

    open spec fn from_spec(v: i32) -> LengthUnit {
        LengthUnit::of_raw(v)
    }
}

/// `dai::IMUSensor` (the members this crate names).
#[derive(Debug, Clone, Copy, PartialEq, Eq, Structural, Hash)]
pub enum ImuSensor {
    AccelerometerRaw,
    AccelerometerCalibrated,
    GyroscopeRaw,
    MagnetometerRaw,
    RotationVector,
    /// A value this crate does not name; carried through verbatim.
    Other(i32),
}

impl RawEnum for ImuSensor {
    open spec fn raw_of(self) -> i32 {
        match self {
            ImuSensor::AccelerometerRaw => DAI_IMU_ACCELEROMETER_RAW,
            ImuSensor::AccelerometerCalibrated => DAI_IMU_ACCELEROMETER_CALIBRATED,
            ImuSensor::GyroscopeRaw => DAI_IMU_GYROSCOPE_RAW,
            ImuSensor::MagnetometerRaw => DAI_IMU_MAGNETOMETER_RAW,
            ImuSensor::RotationVector => DAI_IMU_ROTATION_VECTOR,
            ImuSensor::Other(v) => v,
        }
    }

    open spec fn of_raw(v: i32) -> Self {
        if v == DAI_IMU_ACCELEROMETER_RAW {
            ImuSensor::AccelerometerRaw
        } else if v == DAI_IMU_ACCELEROMETER_CALIBRATED {
            ImuSensor::AccelerometerCalibrated
        } else if v == DAI_IMU_GYROSCOPE_RAW {
            ImuSensor::GyroscopeRaw
        } else if v == DAI_IMU_MAGNETOMETER_RAW {
            ImuSensor::MagnetometerRaw
        } else if v == DAI_IMU_ROTATION_VECTOR {
            ImuSensor::RotationVector
        } else {
            ImuSensor::Other(v)
        }
    }

    open spec fn is_canonical(self) -> bool {
        match self {
            ImuSensor::Other(v) => v != DAI_IMU_ACCELEROMETER_RAW && v != DAI_IMU_ACCELEROMETER_CALIBRATED && v != DAI_IMU_GYROSCOPE_RAW && v != DAI_IMU_MAGNETOMETER_RAW && v != DAI_IMU_ROTATION_VECTOR,
            _ => true,
        }
    }

    fn raw(self) -> (r: i32) {
        self.to_raw()
    }

    proof fn lemma_raw_round_trip(v: i32) {
    }

    proof fn lemma_value_round_trip(e: Self) {
    }
}

impl ImuSensor {
    /// The depthai-core numeric value.
    pub fn to_raw(self) -> (r: i32)
        ensures
            r == self.raw_of(),
    {
        match self {
            ImuSensor::AccelerometerRaw => DAI_IMU_ACCELEROMETER_RAW,
            ImuSensor::AccelerometerCalibrated => DAI_IMU_ACCELEROMETER_CALIBRATED,
            ImuSensor::GyroscopeRaw => DAI_IMU_GYROSCOPE_RAW,
            ImuSensor::MagnetometerRaw => DAI_IMU_MAGNETOMETER_RAW,
            ImuSensor::RotationVector => DAI_IMU_ROTATION_VECTOR,
            ImuSensor::Other(v) => v,
        }
    }

    /// From the depthai-core numeric value (never fails).
    pub fn from_raw(v: i32) -> (r: Self)
        ensures
            r == Self::of_raw(v),
    {
        if v == DAI_IMU_ACCELEROMETER_RAW {
            ImuSensor::AccelerometerRaw
        } else if v == DAI_IMU_ACCELEROMETER_CALIBRATED {
            ImuSensor::AccelerometerCalibrated
        } else if v == DAI_IMU_GYROSCOPE_RAW {
            ImuSensor::GyroscopeRaw
        } else if v == DAI_IMU_MAGNETOMETER_RAW {
            ImuSensor::MagnetometerRaw
        } else if v == DAI_IMU_ROTATION_VECTOR {
            ImuSensor::RotationVector
        } else {
            ImuSensor::Other(v)
        }
    }
}

impl From<ImuSensor> for i32 {
    fn from(v: ImuSensor) -> (r: i32) {
        v.to_raw()
    }
}

impl vstd::std_specs::convert::FromSpecImpl<ImuSensor> for i32 {
    open spec fn obeys_from_spec() -> bool {
        true
    }

    open spec fn from_spec(v: ImuSensor) -> i32 {
        v.raw_of()
    }
}

impl From<i32> for ImuSensor {
    fn from(v: i32) -> (r: ImuSensor) {
        ImuSensor::from_raw(v)
    }
}

impl vstd::std_specs::convert::FromSpecImpl<i32> for ImuSensor {
    open spec fn obeys_from_spec() -> bool {
        true
    }

    open spec fn from_spec(v: i32) -> ImuSensor {
        ImuSensor::of_raw(v)
    }
}

/// `dai::IMUReport::Accuracy`.
#[derive(Debug, Clone, Copy, PartialEq, Eq, Structural, Hash)]
pub enum ImuAccuracy {
    Unreliable,
    Low,
    Medium,
    High,
    /// A value this crate does not name; carried through verbatim.
    Other(i32),
}

impl RawEnum for ImuAccuracy {
    open spec fn raw_of(self) -> i32 {
        match self {
            ImuAccuracy::Unreliable => DAI_IMU_ACCURACY_UNRELIABLE,
            ImuAccuracy::Low => DAI_IMU_ACCURACY_LOW,
            ImuAccuracy::Medium => DAI_IMU_ACCURACY_MEDIUM,
            ImuAccuracy::High => DAI_IMU_ACCURACY_HIGH,
            ImuAccuracy::Other(v) => v,
        }
    }

    open spec fn of_raw(v: i32) -> Self {
        if v == DAI_IMU_ACCURACY_UNRELIABLE {
            ImuAccuracy::Unreliable
        } else if v == DAI_IMU_ACCURACY_LOW {
            ImuAccuracy::Low
        } else if v == DAI_IMU_ACCURACY_MEDIUM {
            ImuAccuracy::Medium
        } else if v == DAI_IMU_ACCURACY_HIGH {
            ImuAccuracy::High
        } else {
            ImuAccuracy::Other(v)
        }
    }

    open spec fn is_canonical(self) -> bool {
        match self {
            ImuAccuracy::Other(v) => v != DAI_IMU_ACCURACY_UNRELIABLE && v != DAI_IMU_ACCURACY_LOW && v != DAI_IMU_ACCURACY_MEDIUM && v != DAI_IMU_ACCURACY_HIGH,
            _ => true,
        }
    }

    fn raw(self) -> (r: i32) {
        self.to_raw()
    }

    proof fn lemma_raw_round_trip(v: i32) {
    }

    proof fn lemma_value_round_trip(e: Self) {
    }
}

impl ImuAccuracy {
    /// The depthai-core numeric value.
    pub fn to_raw(self) -> (r: i32)
        ensures
            r == self.raw_of(),
    {
        match self {
            ImuAccuracy::Unreliable => DAI_IMU_ACCURACY_UNRELIABLE,
            ImuAccuracy::Low => DAI_IMU_ACCURACY_LOW,
            ImuAccuracy::Medium => DAI_IMU_ACCURACY_MEDIUM,
            ImuAccuracy::High => DAI_IMU_ACCURACY_HIGH,
            ImuAccuracy::Other(v) => v,
        }
    }

    /// From the depthai-core numeric value (never fails).
    pub fn from_raw(v: i32) -> (r: Self)
        ensures
            r == Self::of_raw(v),
    {
        if v == DAI_IMU_ACCURACY_UNRELIABLE {
            ImuAccuracy::Unreliable
        } else if v == DAI_IMU_ACCURACY_LOW {
            ImuAccuracy::Low
        } else if v == DAI_IMU_ACCURACY_MEDIUM {
            ImuAccuracy::Medium
        } else if v == DAI_IMU_ACCURACY_HIGH {
            ImuAccuracy::High
        } else {
            ImuAccuracy::Other(v)
        }
    }
}

impl From<ImuAccuracy> for i32 {
    fn from(v: ImuAccuracy) -> (r: i32) {
        v.to_raw()
    }
}

impl vstd::std_specs::convert::FromSpecImpl<ImuAccuracy> for i32 {
    open spec fn obeys_from_spec() -> bool {
        true
    }

    open spec fn from_spec(v: ImuAccuracy) -> i32 {
        v.raw_of()
    }
}

impl From<i32> for ImuAccuracy {
    fn from(v: i32) -> (r: ImuAccuracy) {
        ImuAccuracy::from_raw(v)
    }
}

impl vstd::std_specs::convert::FromSpecImpl<i32> for ImuAccuracy {
    open spec fn obeys_from_spec() -> bool {
        true
    }

    open spec fn from_spec(v: i32) -> ImuAccuracy {
        ImuAccuracy::of_raw(v)
    }
}

/// `dai::VideoEncoderProperties::Profile`.
#[derive(Debug, Clone, Copy, PartialEq, Eq, Structural, Hash)]
pub enum VideoEncoderProfile {
    H264Baseline,
    H264High,
    H264Main,
    H265Main,
    Mjpeg,
    /// A value this crate does not name; carried through verbatim.
    Other(i32),
}

impl RawEnum for VideoEncoderProfile {
    open spec fn raw_of(self) -> i32 {
        match self {
            VideoEncoderProfile::H264Baseline => DAI_VENC_H264_BASELINE,
            VideoEncoderProfile::H264High => DAI_VENC_H264_HIGH,
            VideoEncoderProfile::H264Main => DAI_VENC_H264_MAIN,
            VideoEncoderProfile::H265Main => DAI_VENC_H265_MAIN,
            VideoEncoderProfile::Mjpeg => DAI_VENC_MJPEG,
            VideoEncoderProfile::Other(v) => v,
        }
    }

    open spec fn of_raw(v: i32) -> Self {
        if v == DAI_VENC_H264_BASELINE {
            VideoEncoderProfile::H264Baseline
        } else if v == DAI_VENC_H264_HIGH {
            VideoEncoderProfile::H264High
        } else if v == DAI_VENC_H264_MAIN {
            VideoEncoderProfile::H264Main
        } else if v == DAI_VENC_H265_MAIN {
            VideoEncoderProfile::H265Main
        } else if v == DAI_VENC_MJPEG {
            VideoEncoderProfile::Mjpeg
        } else {
            VideoEncoderProfile::Other(v)
        }
    }

    open spec fn is_canonical(self) -> bool {
        match self {
            VideoEncoderProfile::Other(v) => v != DAI_VENC_H264_BASELINE && v != DAI_VENC_H264_HIGH && v != DAI_VENC_H264_MAIN && v != DAI_VENC_H265_MAIN && v != DAI_VENC_MJPEG,
            _ => true,
        }
    }

    fn raw(self) -> (r: i32) {
        self.to_raw()
    }

    proof fn lemma_raw_round_trip(v: i32) {
    }

    proof fn lemma_value_round_trip(e: Self) {
    }
}

impl VideoEncoderProfile {
    /// The depthai-core numeric value.
    pub fn to_raw(self) -> (r: i32)
        ensures
            r == self.raw_of(),
    {
        match self {
            VideoEncoderProfile::H264Baseline => DAI_VENC_H264_BASELINE,
            VideoEncoderProfile::H264High => DAI_VENC_H264_HIGH,
            VideoEncoderProfile::H264Main => DAI_VENC_H264_MAIN,
            VideoEncoderProfile::H265Main => DAI_VENC_H265_MAIN,
            VideoEncoderProfile::Mjpeg => DAI_VENC_MJPEG,
            VideoEncoderProfile::Other(v) => v,
        }
    }

    /// From the depthai-core numeric value (never fails).
    pub fn from_raw(v: i32) -> (r: Self)
        ensures
            r == Self::of_raw(v),
    {
        if v == DAI_VENC_H264_BASELINE {
            VideoEncoderProfile::H264Baseline
        } else if v == DAI_VENC_H264_HIGH {
            VideoEncoderProfile::H264High
        } else if v == DAI_VENC_H264_MAIN {
            VideoEncoderProfile::H264Main
        } else if v == DAI_VENC_H265_MAIN {
            VideoEncoderProfile::H265Main
        } else if v == DAI_VENC_MJPEG {
            VideoEncoderProfile::Mjpeg
        } else {
            VideoEncoderProfile::Other(v)
        }
    }
}

impl From<VideoEncoderProfile> for i32 {
    fn from(v: VideoEncoderProfile) -> (r: i32) {
        v.to_raw()
    }
}

impl vstd::std_specs::convert::FromSpecImpl<VideoEncoderProfile> for i32 {
    open spec fn obeys_from_spec() -> bool {
        true
    }

    open spec fn from_spec(v: VideoEncoderProfile) -> i32 {
        v.raw_of()
    }
}

impl From<i32> for VideoEncoderProfile {
    fn from(v: i32) -> (r: VideoEncoderProfile) {
        VideoEncoderProfile::from_raw(v)
    }
}

impl vstd::std_specs::convert::FromSpecImpl<i32> for VideoEncoderProfile {
    open spec fn obeys_from_spec() -> bool {
        true
    }

    open spec fn from_spec(v: i32) -> VideoEncoderProfile {
        VideoEncoderProfile::of_raw(v)
    }
}

/// `dai::VideoEncoderProperties::RateControlMode`.
#[derive(Debug, Clone, Copy, PartialEq, Eq, Structural, Hash)]
pub enum RateControlMode {
    Cbr,
    Vbr,
    /// A value this crate does not name; carried through verbatim.
    Other(i32),
}

impl RawEnum for RateControlMode {
    open spec fn raw_of(self) -> i32 {
        match self {
            RateControlMode::Cbr => DAI_VENC_RC_CBR,
            RateControlMode::Vbr => DAI_VENC_RC_VBR,
            RateControlMode::Other(v) => v,
        }
    }

    open spec fn of_raw(v: i32) -> Self {
        if v == DAI_VENC_RC_CBR {
            RateControlMode::Cbr
        } else if v == DAI_VENC_RC_VBR {
            RateControlMode::Vbr
        } else {
            RateControlMode::Other(v)
        }
    }

    open spec fn is_canonical(self) -> bool {
        match self {
            RateControlMode::Other(v) => v != DAI_VENC_RC_CBR && v != DAI_VENC_RC_VBR,
            _ => true,
        }
    }

    fn raw(self) -> (r: i32) {
        self.to_raw()
    }

    proof fn lemma_raw_round_trip(v: i32) {
    }

    proof fn lemma_value_round_trip(e: Self) {
    }
}

impl RateControlMode {
    /// The depthai-core numeric value.
    pub fn to_raw(self) -> (r: i32)
        ensures
            r == self.raw_of(),
    {
        match self {
            RateControlMode::Cbr => DAI_VENC_RC_CBR,
            RateControlMode::Vbr => DAI_VENC_RC_VBR,
            RateControlMode::Other(v) => v,
        }
    }

    /// From the depthai-core numeric value (never fails).
    pub fn from_raw(v: i32) -> (r: Self)
        ensures
            r == Self::of_raw(v),
    {
        if v == DAI_VENC_RC_CBR {
            RateControlMode::Cbr
        } else if v == DAI_VENC_RC_VBR {
            RateControlMode::Vbr
        } else {
            RateControlMode::Other(v)
        }
    }
}

impl From<RateControlMode> for i32 {
    fn from(v: RateControlMode) -> (r: i32) {
        v.to_raw()
    }
}

impl vstd::std_specs::convert::FromSpecImpl<RateControlMode> for i32 {
    open spec fn obeys_from_spec() -> bool {
        true
    }

    open spec fn from_spec(v: RateControlMode) -> i32 {
        v.raw_of()
    }
}

impl From<i32> for RateControlMode {
    fn from(v: i32) -> (r: RateControlMode) {
        RateControlMode::from_raw(v)
    }
}

impl vstd::std_specs::convert::FromSpecImpl<i32> for RateControlMode {
    open spec fn obeys_from_spec() -> bool {
        true
    }

    open spec fn from_spec(v: i32) -> RateControlMode {
        RateControlMode::of_raw(v)
    }
}

/// `dai::node::StereoDepth::PresetMode`.
#[derive(Debug, Clone, Copy, PartialEq, Eq, Structural, Hash)]
pub enum StereoPresetMode {
    FastAccuracy,
    FastDensity,
    Default,
    Face,
    HighDetail,
    Robotics,
    Density,
    Accuracy,
    /// A value this crate does not name; carried through verbatim.
    Other(i32),
}

impl RawEnum for StereoPresetMode {
    open spec fn raw_of(self) -> i32 {
        match self {
            StereoPresetMode::FastAccuracy => DAI_STEREO_PRESET_FAST_ACCURACY,
            StereoPresetMode::FastDensity => DAI_STEREO_PRESET_FAST_DENSITY,
            StereoPresetMode::Default => DAI_STEREO_PRESET_DEFAULT,
            StereoPresetMode::Face => DAI_STEREO_PRESET_FACE,
            StereoPresetMode::HighDetail => DAI_STEREO_PRESET_HIGH_DETAIL,
            StereoPresetMode::Robotics => DAI_STEREO_PRESET_ROBOTICS,
            StereoPresetMode::Density => DAI_STEREO_PRESET_DENSITY,
            StereoPresetMode::Accuracy => DAI_STEREO_PRESET_ACCURACY,
            StereoPresetMode::Other(v) => v,
        }
    }

    open spec fn of_raw(v: i32) -> Self {
        if v == DAI_STEREO_PRESET_FAST_ACCURACY {
            StereoPresetMode::FastAccuracy
        } else if v == DAI_STEREO_PRESET_FAST_DENSITY {
            StereoPresetMode::FastDensity
        } else if v == DAI_STEREO_PRESET_DEFAULT {
            StereoPresetMode::Default
        } else if v == DAI_STEREO_PRESET_FACE {
            StereoPresetMode::Face
        } else if v == DAI_STEREO_PRESET_HIGH_DETAIL {
            StereoPresetMode::HighDetail
        } else if v == DAI_STEREO_PRESET_ROBOTICS {
            StereoPresetMode::Robotics
        } else if v == DAI_STEREO_PRESET_DENSITY {
            StereoPresetMode::Density
        } else if v == DAI_STEREO_PRESET_ACCURACY {
            StereoPresetMode::Accuracy
        } else {
            StereoPresetMode::Other(v)
        }
    }

    open spec fn is_canonical(self) -> bool {
        match self {
            StereoPresetMode::Other(v) => v != DAI_STEREO_PRESET_FAST_ACCURACY && v != DAI_STEREO_PRESET_FAST_DENSITY && v != DAI_STEREO_PRESET_DEFAULT && v != DAI_STEREO_PRESET_FACE && v != DAI_STEREO_PRESET_HIGH_DETAIL && v != DAI_STEREO_PRESET_ROBOTICS && v != DAI_STEREO_PRESET_DENSITY && v != DAI_STEREO_PRESET_ACCURACY,
            _ => true,
        }
    }

    fn raw(self) -> (r: i32) {
        self.to_raw()
    }

    proof fn lemma_raw_round_trip(v: i32) {
    }

    proof fn lemma_value_round_trip(e: Self) {
    }
}

impl StereoPresetMode {
    /// The depthai-core numeric value.
    pub fn to_raw(self) -> (r: i32)
        ensures
            r == self.raw_of(),
    {
        match self {
            StereoPresetMode::FastAccuracy => DAI_STEREO_PRESET_FAST_ACCURACY,
            StereoPresetMode::FastDensity => DAI_STEREO_PRESET_FAST_DENSITY,
            StereoPresetMode::Default => DAI_STEREO_PRESET_DEFAULT,
            StereoPresetMode::Face => DAI_STEREO_PRESET_FACE,
            StereoPresetMode::HighDetail => DAI_STEREO_PRESET_HIGH_DETAIL,
            StereoPresetMode::Robotics => DAI_STEREO_PRESET_ROBOTICS,
            StereoPresetMode::Density => DAI_STEREO_PRESET_DENSITY,
            StereoPresetMode::Accuracy => DAI_STEREO_PRESET_ACCURACY,
            StereoPresetMode::Other(v) => v,
        }
    }

    /// From the depthai-core numeric value (never fails).
    pub fn from_raw(v: i32) -> (r: Self)
        ensures
            r == Self::of_raw(v),
    {
        if v == DAI_STEREO_PRESET_FAST_ACCURACY {
            StereoPresetMode::FastAccuracy
        } else if v == DAI_STEREO_PRESET_FAST_DENSITY {
            StereoPresetMode::FastDensity
        } else if v == DAI_STEREO_PRESET_DEFAULT {
            StereoPresetMode::Default
        } else if v == DAI_STEREO_PRESET_FACE {
            StereoPresetMode::Face
        } else if v == DAI_STEREO_PRESET_HIGH_DETAIL {
            StereoPresetMode::HighDetail
        } else if v == DAI_STEREO_PRESET_ROBOTICS {
            StereoPresetMode::Robotics
        } else if v == DAI_STEREO_PRESET_DENSITY {
            StereoPresetMode::Density
        } else if v == DAI_STEREO_PRESET_ACCURACY {
            StereoPresetMode::Accuracy
        } else {
            StereoPresetMode::Other(v)
        }
    }
}

impl From<StereoPresetMode> for i32 {
    fn from(v: StereoPresetMode) -> (r: i32) {
        v.to_raw()
    }
}

impl vstd::std_specs::convert::FromSpecImpl<StereoPresetMode> for i32 {
    open spec fn obeys_from_spec() -> bool {
        true
    }

    open spec fn from_spec(v: StereoPresetMode) -> i32 {
        v.raw_of()
    }
}

impl From<i32> for StereoPresetMode {
    fn from(v: i32) -> (r: StereoPresetMode) {
        StereoPresetMode::from_raw(v)
    }
}

impl vstd::std_specs::convert::FromSpecImpl<i32> for StereoPresetMode {
    open spec fn obeys_from_spec() -> bool {
        true
    }

    open spec fn from_spec(v: i32) -> StereoPresetMode {
        StereoPresetMode::of_raw(v)
    }
}

/// `XLinkDeviceState_t`: what state an enumerated device is in.
#[derive(Debug, Clone, Copy, PartialEq, Eq, Structural, Hash)]
pub enum DeviceState {
    Any,
    Booted,
    Unbooted,
    /// Sitting in the bootloader (a PoE device wedged here needs a
    /// bootloader open+drop to reboot).
    Bootloader,
    FlashBooted,
    /// A value this crate does not name; carried through verbatim.
    Other(i32),
}

impl RawEnum for DeviceState {
    open spec fn raw_of(self) -> i32 {
        match self {
            DeviceState::Any => DAI_XLINK_STATE_ANY,
            DeviceState::Booted => DAI_XLINK_STATE_BOOTED,
            DeviceState::Unbooted => DAI_XLINK_STATE_UNBOOTED,
            DeviceState::Bootloader => DAI_XLINK_STATE_BOOTLOADER,
            DeviceState::FlashBooted => DAI_XLINK_STATE_FLASH_BOOTED,
            DeviceState::Other(v) => v,
        }
    }

    open spec fn of_raw(v: i32) -> Self {
        if v == DAI_XLINK_STATE_ANY {
            DeviceState::Any
        } else if v == DAI_XLINK_STATE_BOOTED {
            DeviceState::Booted
        } else if v == DAI_XLINK_STATE_UNBOOTED {
            DeviceState::Unbooted
        } else if v == DAI_XLINK_STATE_BOOTLOADER {
            DeviceState::Bootloader
        } else if v == DAI_XLINK_STATE_FLASH_BOOTED {
            DeviceState::FlashBooted
        } else {
            DeviceState::Other(v)
        }
    }

    open spec fn is_canonical(self) -> bool {
        match self {
            DeviceState::Other(v) => v != DAI_XLINK_STATE_ANY && v != DAI_XLINK_STATE_BOOTED && v != DAI_XLINK_STATE_UNBOOTED && v != DAI_XLINK_STATE_BOOTLOADER && v != DAI_XLINK_STATE_FLASH_BOOTED,
            _ => true,
        }
    }

    fn raw(self) -> (r: i32) {
        self.to_raw()
    }

    proof fn lemma_raw_round_trip(v: i32) {
    }

    proof fn lemma_value_round_trip(e: Self) {
    }
}

impl DeviceState {
    /// The depthai-core numeric value.
    pub fn to_raw(self) -> (r: i32)
        ensures
            r == self.raw_of(),
    {
        match self {
            DeviceState::Any => DAI_XLINK_STATE_ANY,
            DeviceState::Booted => DAI_XLINK_STATE_BOOTED,
            DeviceState::Unbooted => DAI_XLINK_STATE_UNBOOTED,
            DeviceState::Bootloader => DAI_XLINK_STATE_BOOTLOADER,
            DeviceState::FlashBooted => DAI_XLINK_STATE_FLASH_BOOTED,
            DeviceState::Other(v) => v,
        }
    }

    /// From the depthai-core numeric value (never fails).
    pub fn from_raw(v: i32) -> (r: Self)
        ensures
            r == Self::of_raw(v),
    {
        if v == DAI_XLINK_STATE_ANY {
            DeviceState::Any
        } else if v == DAI_XLINK_STATE_BOOTED {
            DeviceState::Booted
        } else if v == DAI_XLINK_STATE_UNBOOTED {
            DeviceState::Unbooted
        } else if v == DAI_XLINK_STATE_BOOTLOADER {
            DeviceState::Bootloader
        } else if v == DAI_XLINK_STATE_FLASH_BOOTED {
            DeviceState::FlashBooted
        } else {
            DeviceState::Other(v)
        }
    }
}

impl From<DeviceState> for i32 {
    fn from(v: DeviceState) -> (r: i32) {
        v.to_raw()
    }
}

impl vstd::std_specs::convert::FromSpecImpl<DeviceState> for i32 {
    open spec fn obeys_from_spec() -> bool {
        true
    }

    open spec fn from_spec(v: DeviceState) -> i32 {
        v.raw_of()
    }
}

impl From<i32> for DeviceState {
    fn from(v: i32) -> (r: DeviceState) {
        DeviceState::from_raw(v)
    }
}

impl vstd::std_specs::convert::FromSpecImpl<i32> for DeviceState {
    open spec fn obeys_from_spec() -> bool {
        true
    }

    open spec fn from_spec(v: i32) -> DeviceState {
        DeviceState::of_raw(v)
    }
}

/// `XLinkProtocol_t`: the transport an enumerated device was found on.
#[derive(Debug, Clone, Copy, PartialEq, Eq, Structural, Hash)]
pub enum XLinkProtocol {
    UsbVsc,
    UsbCdc,
    Pcie,
    Ipc,
    TcpIp,
    LocalShdmem,
    TcpIpOrLocalShdmem,
    UsbEp,
    Any,
    /// A value this crate does not name; carried through verbatim.
    Other(i32),
}

impl RawEnum for XLinkProtocol {
    open spec fn raw_of(self) -> i32 {
        match self {
            XLinkProtocol::UsbVsc => DAI_XLINK_PROTOCOL_USB_VSC,
            XLinkProtocol::UsbCdc => DAI_XLINK_PROTOCOL_USB_CDC,
            XLinkProtocol::Pcie => DAI_XLINK_PROTOCOL_PCIE,
            XLinkProtocol::Ipc => DAI_XLINK_PROTOCOL_IPC,
            XLinkProtocol::TcpIp => DAI_XLINK_PROTOCOL_TCP_IP,
            XLinkProtocol::LocalShdmem => DAI_XLINK_PROTOCOL_LOCAL_SHDMEM,
            XLinkProtocol::TcpIpOrLocalShdmem => DAI_XLINK_PROTOCOL_TCP_IP_OR_LOCAL_SHDMEM,
            XLinkProtocol::UsbEp => DAI_XLINK_PROTOCOL_USB_EP,
            XLinkProtocol::Any => DAI_XLINK_PROTOCOL_ANY,
            XLinkProtocol::Other(v) => v,
        }
    }

    open spec fn of_raw(v: i32) -> Self {
        if v == DAI_XLINK_PROTOCOL_USB_VSC {
            XLinkProtocol::UsbVsc
        } else if v == DAI_XLINK_PROTOCOL_USB_CDC {
            XLinkProtocol::UsbCdc
        } else if v == DAI_XLINK_PROTOCOL_PCIE {
            XLinkProtocol::Pcie
        } else if v == DAI_XLINK_PROTOCOL_IPC {
            XLinkProtocol::Ipc
        } else if v == DAI_XLINK_PROTOCOL_TCP_IP {
            XLinkProtocol::TcpIp
        } else if v == DAI_XLINK_PROTOCOL_LOCAL_SHDMEM {
            XLinkProtocol::LocalShdmem
        } else if v == DAI_XLINK_PROTOCOL_TCP_IP_OR_LOCAL_SHDMEM {
            XLinkProtocol::TcpIpOrLocalShdmem
        } else if v == DAI_XLINK_PROTOCOL_USB_EP {
            XLinkProtocol::UsbEp
        } else if v == DAI_XLINK_PROTOCOL_ANY {
            XLinkProtocol::Any
        } else {
            XLinkProtocol::Other(v)
        }
    }

    open spec fn is_canonical(self) -> bool {
        match self {
            XLinkProtocol::Other(v) => v != DAI_XLINK_PROTOCOL_USB_VSC && v != DAI_XLINK_PROTOCOL_USB_CDC && v != DAI_XLINK_PROTOCOL_PCIE && v != DAI_XLINK_PROTOCOL_IPC && v != DAI_XLINK_PROTOCOL_TCP_IP && v != DAI_XLINK_PROTOCOL_LOCAL_SHDMEM && v != DAI_XLINK_PROTOCOL_TCP_IP_OR_LOCAL_SHDMEM && v != DAI_XLINK_PROTOCOL_USB_EP && v != DAI_XLINK_PROTOCOL_ANY,
            _ => true,
        }
    }

    fn raw(self) -> (r: i32) {
        self.to_raw()
    }

    proof fn lemma_raw_round_trip(v: i32) {
    }

    proof fn lemma_value_round_trip(e: Self) {
    }
}

impl XLinkProtocol {
    /// The depthai-core numeric value.
    pub fn to_raw(self) -> (r: i32)
        ensures
            r == self.raw_of(),
    {
        match self {
            XLinkProtocol::UsbVsc => DAI_XLINK_PROTOCOL_USB_VSC,
            XLinkProtocol::UsbCdc => DAI_XLINK_PROTOCOL_USB_CDC,
            XLinkProtocol::Pcie => DAI_XLINK_PROTOCOL_PCIE,
            XLinkProtocol::Ipc => DAI_XLINK_PROTOCOL_IPC,
            XLinkProtocol::TcpIp => DAI_XLINK_PROTOCOL_TCP_IP,
            XLinkProtocol::LocalShdmem => DAI_XLINK_PROTOCOL_LOCAL_SHDMEM,
            XLinkProtocol::TcpIpOrLocalShdmem => DAI_XLINK_PROTOCOL_TCP_IP_OR_LOCAL_SHDMEM,
            XLinkProtocol::UsbEp => DAI_XLINK_PROTOCOL_USB_EP,
            XLinkProtocol::Any => DAI_XLINK_PROTOCOL_ANY,
            XLinkProtocol::Other(v) => v,
        }
    }

    /// From the depthai-core numeric value (never fails).
    pub fn from_raw(v: i32) -> (r: Self)
        ensures
            r == Self::of_raw(v),
    {
        if v == DAI_XLINK_PROTOCOL_USB_VSC {
            XLinkProtocol::UsbVsc
        } else if v == DAI_XLINK_PROTOCOL_USB_CDC {
            XLinkProtocol::UsbCdc
        } else if v == DAI_XLINK_PROTOCOL_PCIE {
            XLinkProtocol::Pcie
        } else if v == DAI_XLINK_PROTOCOL_IPC {
            XLinkProtocol::Ipc
        } else if v == DAI_XLINK_PROTOCOL_TCP_IP {
            XLinkProtocol::TcpIp
        } else if v == DAI_XLINK_PROTOCOL_LOCAL_SHDMEM {
            XLinkProtocol::LocalShdmem
        } else if v == DAI_XLINK_PROTOCOL_TCP_IP_OR_LOCAL_SHDMEM {
            XLinkProtocol::TcpIpOrLocalShdmem
        } else if v == DAI_XLINK_PROTOCOL_USB_EP {
            XLinkProtocol::UsbEp
        } else if v == DAI_XLINK_PROTOCOL_ANY {
            XLinkProtocol::Any
        } else {
            XLinkProtocol::Other(v)
        }
    }
}

impl From<XLinkProtocol> for i32 {
    fn from(v: XLinkProtocol) -> (r: i32) {
        v.to_raw()
    }
}

impl vstd::std_specs::convert::FromSpecImpl<XLinkProtocol> for i32 {
    open spec fn obeys_from_spec() -> bool {
        true
    }

    open spec fn from_spec(v: XLinkProtocol) -> i32 {
        v.raw_of()
    }
}

impl From<i32> for XLinkProtocol {
    fn from(v: i32) -> (r: XLinkProtocol) {
        XLinkProtocol::from_raw(v)
    }
}

impl vstd::std_specs::convert::FromSpecImpl<i32> for XLinkProtocol {
    open spec fn obeys_from_spec() -> bool {
        true
    }

    open spec fn from_spec(v: i32) -> XLinkProtocol {
        XLinkProtocol::of_raw(v)
    }
}

/// `XLinkPlatform_t`: the silicon of an enumerated device.
#[derive(Debug, Clone, Copy, PartialEq, Eq, Structural, Hash)]
pub enum XLinkPlatform {
    Any,
    Myriad2,
    MyriadX,
    Rvc3,
    Rvc4,
    /// A value this crate does not name; carried through verbatim.
    Other(i32),
}

impl RawEnum for XLinkPlatform {
    open spec fn raw_of(self) -> i32 {
        match self {
            XLinkPlatform::Any => DAI_XLINK_PLATFORM_ANY,
            XLinkPlatform::Myriad2 => DAI_XLINK_PLATFORM_MYRIAD_2,
            XLinkPlatform::MyriadX => DAI_XLINK_PLATFORM_MYRIAD_X,
            XLinkPlatform::Rvc3 => DAI_XLINK_PLATFORM_RVC3,
            XLinkPlatform::Rvc4 => DAI_XLINK_PLATFORM_RVC4,
            XLinkPlatform::Other(v) => v,
        }
    }

    open spec fn of_raw(v: i32) -> Self {
        if v == DAI_XLINK_PLATFORM_ANY {
            XLinkPlatform::Any
        } else if v == DAI_XLINK_PLATFORM_MYRIAD_2 {
            XLinkPlatform::Myriad2
        } else if v == DAI_XLINK_PLATFORM_MYRIAD_X {
            XLinkPlatform::MyriadX
        } else if v == DAI_XLINK_PLATFORM_RVC3 {
            XLinkPlatform::Rvc3
        } else if v == DAI_XLINK_PLATFORM_RVC4 {
            XLinkPlatform::Rvc4
        } else {
            XLinkPlatform::Other(v)
        }
    }

    open spec fn is_canonical(self) -> bool {
        match self {
            XLinkPlatform::Other(v) => v != DAI_XLINK_PLATFORM_ANY && v != DAI_XLINK_PLATFORM_MYRIAD_2 && v != DAI_XLINK_PLATFORM_MYRIAD_X && v != DAI_XLINK_PLATFORM_RVC3 && v != DAI_XLINK_PLATFORM_RVC4,
            _ => true,
        }
    }

    fn raw(self) -> (r: i32) {
        self.to_raw()
    }

    proof fn lemma_raw_round_trip(v: i32) {
    }

    proof fn lemma_value_round_trip(e: Self) {
    }
}

impl XLinkPlatform {
    /// The depthai-core numeric value.
    pub fn to_raw(self) -> (r: i32)
        ensures
            r == self.raw_of(),
    {
        match self {
            XLinkPlatform::Any => DAI_XLINK_PLATFORM_ANY,
            XLinkPlatform::Myriad2 => DAI_XLINK_PLATFORM_MYRIAD_2,
            XLinkPlatform::MyriadX => DAI_XLINK_PLATFORM_MYRIAD_X,
            XLinkPlatform::Rvc3 => DAI_XLINK_PLATFORM_RVC3,
            XLinkPlatform::Rvc4 => DAI_XLINK_PLATFORM_RVC4,
            XLinkPlatform::Other(v) => v,
        }
    }

    /// From the depthai-core numeric value (never fails).
    pub fn from_raw(v: i32) -> (r: Self)
        ensures
            r == Self::of_raw(v),
    {
        if v == DAI_XLINK_PLATFORM_ANY {
            XLinkPlatform::Any
        } else if v == DAI_XLINK_PLATFORM_MYRIAD_2 {
            XLinkPlatform::Myriad2
        } else if v == DAI_XLINK_PLATFORM_MYRIAD_X {
            XLinkPlatform::MyriadX
        } else if v == DAI_XLINK_PLATFORM_RVC3 {
            XLinkPlatform::Rvc3
        } else if v == DAI_XLINK_PLATFORM_RVC4 {
            XLinkPlatform::Rvc4
        } else {
            XLinkPlatform::Other(v)
        }
    }
}

impl From<XLinkPlatform> for i32 {
    fn from(v: XLinkPlatform) -> (r: i32) {
        v.to_raw()
    }
}

impl vstd::std_specs::convert::FromSpecImpl<XLinkPlatform> for i32 {
    open spec fn obeys_from_spec() -> bool {
        true
    }

    open spec fn from_spec(v: XLinkPlatform) -> i32 {
        v.raw_of()
    }
}

impl From<i32> for XLinkPlatform {
    fn from(v: i32) -> (r: XLinkPlatform) {
        XLinkPlatform::from_raw(v)
    }
}

impl vstd::std_specs::convert::FromSpecImpl<i32> for XLinkPlatform {
    open spec fn obeys_from_spec() -> bool {
        true
    }

    open spec fn from_spec(v: i32) -> XLinkPlatform {
        XLinkPlatform::of_raw(v)
    }
}

/// `dai::EncodedFrame::Profile`.
#[derive(Debug, Clone, Copy, PartialEq, Eq, Structural, Hash)]
pub enum EncodedFrameProfile {
    Jpeg,
    Avc,
    Hevc,
    /// A value this crate does not name; carried through verbatim.
    Other(i32),
}

impl RawEnum for EncodedFrameProfile {
    open spec fn raw_of(self) -> i32 {
        match self {
            EncodedFrameProfile::Jpeg => DAI_ENC_PROFILE_JPEG,
            EncodedFrameProfile::Avc => DAI_ENC_PROFILE_AVC,
            EncodedFrameProfile::Hevc => DAI_ENC_PROFILE_HEVC,
            EncodedFrameProfile::Other(v) => v,
        }
    }

    open spec fn of_raw(v: i32) -> Self {
        if v == DAI_ENC_PROFILE_JPEG {
            EncodedFrameProfile::Jpeg
        } else if v == DAI_ENC_PROFILE_AVC {
            EncodedFrameProfile::Avc
        } else if v == DAI_ENC_PROFILE_HEVC {
            EncodedFrameProfile::Hevc
        } else {
            EncodedFrameProfile::Other(v)
        }
    }

    open spec fn is_canonical(self) -> bool {
        match self {
            EncodedFrameProfile::Other(v) => v != DAI_ENC_PROFILE_JPEG && v != DAI_ENC_PROFILE_AVC && v != DAI_ENC_PROFILE_HEVC,
            _ => true,
        }
    }

    fn raw(self) -> (r: i32) {
        self.to_raw()
    }

    proof fn lemma_raw_round_trip(v: i32) {
    }

    proof fn lemma_value_round_trip(e: Self) {
    }
}

impl EncodedFrameProfile {
    /// The depthai-core numeric value.
    pub fn to_raw(self) -> (r: i32)
        ensures
            r == self.raw_of(),
    {
        match self {
            EncodedFrameProfile::Jpeg => DAI_ENC_PROFILE_JPEG,
            EncodedFrameProfile::Avc => DAI_ENC_PROFILE_AVC,
            EncodedFrameProfile::Hevc => DAI_ENC_PROFILE_HEVC,
            EncodedFrameProfile::Other(v) => v,
        }
    }

    /// From the depthai-core numeric value (never fails).
    pub fn from_raw(v: i32) -> (r: Self)
        ensures
            r == Self::of_raw(v),
    {
        if v == DAI_ENC_PROFILE_JPEG {
            EncodedFrameProfile::Jpeg
        } else if v == DAI_ENC_PROFILE_AVC {
            EncodedFrameProfile::Avc
        } else if v == DAI_ENC_PROFILE_HEVC {
            EncodedFrameProfile::Hevc
        } else {
            EncodedFrameProfile::Other(v)
        }
    }
}

impl From<EncodedFrameProfile> for i32 {
    fn from(v: EncodedFrameProfile) -> (r: i32) {
        v.to_raw()
    }
}

impl vstd::std_specs::convert::FromSpecImpl<EncodedFrameProfile> for i32 {
    open spec fn obeys_from_spec() -> bool {
        true
    }

    open spec fn from_spec(v: EncodedFrameProfile) -> i32 {
        v.raw_of()
    }
}

impl From<i32> for EncodedFrameProfile {
    fn from(v: i32) -> (r: EncodedFrameProfile) {
        EncodedFrameProfile::from_raw(v)
    }
}

impl vstd::std_specs::convert::FromSpecImpl<i32> for EncodedFrameProfile {
    open spec fn obeys_from_spec() -> bool {
        true
    }

    open spec fn from_spec(v: i32) -> EncodedFrameProfile {
        EncodedFrameProfile::of_raw(v)
    }
}

/// `dai::EncodedFrame::FrameType`.
#[derive(Debug, Clone, Copy, PartialEq, Eq, Structural, Hash)]
pub enum EncodedFrameType {
    /// A keyframe.
    I,
    P,
    B,
    Unknown,
    /// A value this crate does not name; carried through verbatim.
    Other(i32),
}

impl RawEnum for EncodedFrameType {
    open spec fn raw_of(self) -> i32 {
        match self {
            EncodedFrameType::I => DAI_ENC_FRAME_I,
            EncodedFrameType::P => DAI_ENC_FRAME_P,
            EncodedFrameType::B => DAI_ENC_FRAME_B,
            EncodedFrameType::Unknown => DAI_ENC_FRAME_UNKNOWN,
            EncodedFrameType::Other(v) => v,
        }
    }

    open spec fn of_raw(v: i32) -> Self {
        if v == DAI_ENC_FRAME_I {
            EncodedFrameType::I
        } else if v == DAI_ENC_FRAME_P {
            EncodedFrameType::P
        } else if v == DAI_ENC_FRAME_B {
            EncodedFrameType::B
        } else if v == DAI_ENC_FRAME_UNKNOWN {
            EncodedFrameType::Unknown
        } else {
            EncodedFrameType::Other(v)
        }
    }

    open spec fn is_canonical(self) -> bool {
        match self {
            EncodedFrameType::Other(v) => v != DAI_ENC_FRAME_I && v != DAI_ENC_FRAME_P && v != DAI_ENC_FRAME_B && v != DAI_ENC_FRAME_UNKNOWN,
            _ => true,
        }
    }

    fn raw(self) -> (r: i32) {
        self.to_raw()
    }

    proof fn lemma_raw_round_trip(v: i32) {
    }

    proof fn lemma_value_round_trip(e: Self) {
    }
}

impl EncodedFrameType {
    /// The depthai-core numeric value.
    pub fn to_raw(self) -> (r: i32)
        ensures
            r == self.raw_of(),
    {
        match self {
            EncodedFrameType::I => DAI_ENC_FRAME_I,
            EncodedFrameType::P => DAI_ENC_FRAME_P,
            EncodedFrameType::B => DAI_ENC_FRAME_B,
            EncodedFrameType::Unknown => DAI_ENC_FRAME_UNKNOWN,
            EncodedFrameType::Other(v) => v,
        }
    }

    /// From the depthai-core numeric value (never fails).
    pub fn from_raw(v: i32) -> (r: Self)
        ensures
            r == Self::of_raw(v),
    {
        if v == DAI_ENC_FRAME_I {
            EncodedFrameType::I
        } else if v == DAI_ENC_FRAME_P {
            EncodedFrameType::P
        } else if v == DAI_ENC_FRAME_B {
            EncodedFrameType::B
        } else if v == DAI_ENC_FRAME_UNKNOWN {
            EncodedFrameType::Unknown
        } else {
            EncodedFrameType::Other(v)
        }
    }
}

impl From<EncodedFrameType> for i32 {
    fn from(v: EncodedFrameType) -> (r: i32) {
        v.to_raw()
    }
}

impl vstd::std_specs::convert::FromSpecImpl<EncodedFrameType> for i32 {
    open spec fn obeys_from_spec() -> bool {
        true
    }

    open spec fn from_spec(v: EncodedFrameType) -> i32 {
        v.raw_of()
    }
}

impl From<i32> for EncodedFrameType {
    fn from(v: i32) -> (r: EncodedFrameType) {
        EncodedFrameType::from_raw(v)
    }
}

impl vstd::std_specs::convert::FromSpecImpl<i32> for EncodedFrameType {
    open spec fn obeys_from_spec() -> bool {
        true
    }

    open spec fn from_spec(v: i32) -> EncodedFrameType {
        EncodedFrameType::of_raw(v)
    }
}

/// `dai::TensorInfo::DataType`.
#[derive(Debug, Clone, Copy, PartialEq, Eq, Structural, Hash)]
pub enum TensorDataType {
    Fp16,
    U8f,
    Int,
    Fp32,
    I8,
    Fp64,
    U16f,
    /// A value this crate does not name; carried through verbatim.
    Other(i32),
}

impl RawEnum for TensorDataType {
    open spec fn raw_of(self) -> i32 {
        match self {
            TensorDataType::Fp16 => DAI_TENSOR_FP16,
            TensorDataType::U8f => DAI_TENSOR_U8F,
            TensorDataType::Int => DAI_TENSOR_INT,
            TensorDataType::Fp32 => DAI_TENSOR_FP32,
            TensorDataType::I8 => DAI_TENSOR_I8,
            TensorDataType::Fp64 => DAI_TENSOR_FP64,
            TensorDataType::U16f => DAI_TENSOR_U16F,
            TensorDataType::Other(v) => v,
        }
    }

    open spec fn of_raw(v: i32) -> Self {
        if v == DAI_TENSOR_FP16 {
            TensorDataType::Fp16
        } else if v == DAI_TENSOR_U8F {
            TensorDataType::U8f
        } else if v == DAI_TENSOR_INT {
            TensorDataType::Int
        } else if v == DAI_TENSOR_FP32 {
            TensorDataType::Fp32
        } else if v == DAI_TENSOR_I8 {
            TensorDataType::I8
        } else if v == DAI_TENSOR_FP64 {
            TensorDataType::Fp64
        } else if v == DAI_TENSOR_U16F {
            TensorDataType::U16f
        } else {
            TensorDataType::Other(v)
        }
    }

    open spec fn is_canonical(self) -> bool {
        match self {
            TensorDataType::Other(v) => v != DAI_TENSOR_FP16 && v != DAI_TENSOR_U8F && v != DAI_TENSOR_INT && v != DAI_TENSOR_FP32 && v != DAI_TENSOR_I8 && v != DAI_TENSOR_FP64 && v != DAI_TENSOR_U16F,
            _ => true,
        }
    }

    fn raw(self) -> (r: i32) {
        self.to_raw()
    }

    proof fn lemma_raw_round_trip(v: i32) {
    }

    proof fn lemma_value_round_trip(e: Self) {
    }
}

impl TensorDataType {
    /// The depthai-core numeric value.
    pub fn to_raw(self) -> (r: i32)
        ensures
            r == self.raw_of(),
    {
        match self {
            TensorDataType::Fp16 => DAI_TENSOR_FP16,
            TensorDataType::U8f => DAI_TENSOR_U8F,
            TensorDataType::Int => DAI_TENSOR_INT,
            TensorDataType::Fp32 => DAI_TENSOR_FP32,
            TensorDataType::I8 => DAI_TENSOR_I8,
            TensorDataType::Fp64 => DAI_TENSOR_FP64,
            TensorDataType::U16f => DAI_TENSOR_U16F,
            TensorDataType::Other(v) => v,
        }
    }

    /// From the depthai-core numeric value (never fails).
    pub fn from_raw(v: i32) -> (r: Self)
        ensures
            r == Self::of_raw(v),
    {
        if v == DAI_TENSOR_FP16 {
            TensorDataType::Fp16
        } else if v == DAI_TENSOR_U8F {
            TensorDataType::U8f
        } else if v == DAI_TENSOR_INT {
            TensorDataType::Int
        } else if v == DAI_TENSOR_FP32 {
            TensorDataType::Fp32
        } else if v == DAI_TENSOR_I8 {
            TensorDataType::I8
        } else if v == DAI_TENSOR_FP64 {
            TensorDataType::Fp64
        } else if v == DAI_TENSOR_U16F {
            TensorDataType::U16f
        } else {
            TensorDataType::Other(v)
        }
    }
}

impl From<TensorDataType> for i32 {
    fn from(v: TensorDataType) -> (r: i32) {
        v.to_raw()
    }
}

impl vstd::std_specs::convert::FromSpecImpl<TensorDataType> for i32 {
    open spec fn obeys_from_spec() -> bool {
        true
    }

    open spec fn from_spec(v: TensorDataType) -> i32 {
        v.raw_of()
    }
}

impl From<i32> for TensorDataType {
    fn from(v: i32) -> (r: TensorDataType) {
        TensorDataType::from_raw(v)
    }
}

impl vstd::std_specs::convert::FromSpecImpl<i32> for TensorDataType {
    open spec fn obeys_from_spec() -> bool {
        true
    }

    open spec fn from_spec(v: i32) -> TensorDataType {
        TensorDataType::of_raw(v)
    }
}

/// `dai::TensorInfo::StorageOrder`.
#[derive(Debug, Clone, Copy, PartialEq, Eq, Structural, Hash)]
pub enum StorageOrder {
    Nhwc,
    Nhcw,
    Nchw,
    Hwc,
    Chw,
    Nc,
    C,
    /// A value this crate does not name; carried through verbatim.
    Other(i32),
}

impl RawEnum for StorageOrder {
    open spec fn raw_of(self) -> i32 {
        match self {
            StorageOrder::Nhwc => DAI_ORDER_NHWC,
            StorageOrder::Nhcw => DAI_ORDER_NHCW,
            StorageOrder::Nchw => DAI_ORDER_NCHW,
            StorageOrder::Hwc => DAI_ORDER_HWC,
            StorageOrder::Chw => DAI_ORDER_CHW,
            StorageOrder::Nc => DAI_ORDER_NC,
            StorageOrder::C => DAI_ORDER_C,
            StorageOrder::Other(v) => v,
        }
    }

    open spec fn of_raw(v: i32) -> Self {
        if v == DAI_ORDER_NHWC {
            StorageOrder::Nhwc
        } else if v == DAI_ORDER_NHCW {
            StorageOrder::Nhcw
        } else if v == DAI_ORDER_NCHW {
            StorageOrder::Nchw
        } else if v == DAI_ORDER_HWC {
            StorageOrder::Hwc
        } else if v == DAI_ORDER_CHW {
            StorageOrder::Chw
        } else if v == DAI_ORDER_NC {
            StorageOrder::Nc
        } else if v == DAI_ORDER_C {
            StorageOrder::C
        } else {
            StorageOrder::Other(v)
        }
    }

    open spec fn is_canonical(self) -> bool {
        match self {
            StorageOrder::Other(v) => v != DAI_ORDER_NHWC && v != DAI_ORDER_NHCW && v != DAI_ORDER_NCHW && v != DAI_ORDER_HWC && v != DAI_ORDER_CHW && v != DAI_ORDER_NC && v != DAI_ORDER_C,
            _ => true,
        }
    }

    fn raw(self) -> (r: i32) {
        self.to_raw()
    }

    proof fn lemma_raw_round_trip(v: i32) {
    }

    proof fn lemma_value_round_trip(e: Self) {
    }
}

impl StorageOrder {
    /// The depthai-core numeric value.
    pub fn to_raw(self) -> (r: i32)
        ensures
            r == self.raw_of(),
    {
        match self {
            StorageOrder::Nhwc => DAI_ORDER_NHWC,
            StorageOrder::Nhcw => DAI_ORDER_NHCW,
            StorageOrder::Nchw => DAI_ORDER_NCHW,
            StorageOrder::Hwc => DAI_ORDER_HWC,
            StorageOrder::Chw => DAI_ORDER_CHW,
            StorageOrder::Nc => DAI_ORDER_NC,
            StorageOrder::C => DAI_ORDER_C,
            StorageOrder::Other(v) => v,
        }
    }

    /// From the depthai-core numeric value (never fails).
    pub fn from_raw(v: i32) -> (r: Self)
        ensures
            r == Self::of_raw(v),
    {
        if v == DAI_ORDER_NHWC {
            StorageOrder::Nhwc
        } else if v == DAI_ORDER_NHCW {
            StorageOrder::Nhcw
        } else if v == DAI_ORDER_NCHW {
            StorageOrder::Nchw
        } else if v == DAI_ORDER_HWC {
            StorageOrder::Hwc
        } else if v == DAI_ORDER_CHW {
            StorageOrder::Chw
        } else if v == DAI_ORDER_NC {
            StorageOrder::Nc
        } else if v == DAI_ORDER_C {
            StorageOrder::C
        } else {
            StorageOrder::Other(v)
        }
    }
}

impl From<StorageOrder> for i32 {
    fn from(v: StorageOrder) -> (r: i32) {
        v.to_raw()
    }
}

impl vstd::std_specs::convert::FromSpecImpl<StorageOrder> for i32 {
    open spec fn obeys_from_spec() -> bool {
        true
    }

    open spec fn from_spec(v: StorageOrder) -> i32 {
        v.raw_of()
    }
}

impl From<i32> for StorageOrder {
    fn from(v: i32) -> (r: StorageOrder) {
        StorageOrder::from_raw(v)
    }
}

impl vstd::std_specs::convert::FromSpecImpl<i32> for StorageOrder {
    open spec fn obeys_from_spec() -> bool {
        true
    }

    open spec fn from_spec(v: i32) -> StorageOrder {
        StorageOrder::of_raw(v)
    }
}

/// `dai::Platform`.
#[derive(Debug, Clone, Copy, PartialEq, Eq, Structural, Hash)]
pub enum Platform {
    Rvc2,
    Rvc3,
    Rvc4,
    /// A value this crate does not name; carried through verbatim.
    Other(i32),
}

impl RawEnum for Platform {
    open spec fn raw_of(self) -> i32 {
        match self {
            Platform::Rvc2 => DAI_PLATFORM_RVC2,
            Platform::Rvc3 => DAI_PLATFORM_RVC3,
            Platform::Rvc4 => DAI_PLATFORM_RVC4,
            Platform::Other(v) => v,
        }
    }

    open spec fn of_raw(v: i32) -> Self {
        if v == DAI_PLATFORM_RVC2 {
            Platform::Rvc2
        } else if v == DAI_PLATFORM_RVC3 {
            Platform::Rvc3
        } else if v == DAI_PLATFORM_RVC4 {
            Platform::Rvc4
        } else {
            Platform::Other(v)
        }
    }

    open spec fn is_canonical(self) -> bool {
        match self {
            Platform::Other(v) => v != DAI_PLATFORM_RVC2 && v != DAI_PLATFORM_RVC3 && v != DAI_PLATFORM_RVC4,
            _ => true,
        }
    }

    fn raw(self) -> (r: i32) {
        self.to_raw()
    }

    proof fn lemma_raw_round_trip(v: i32) {
    }

    proof fn lemma_value_round_trip(e: Self) {
    }
}

impl Platform {
    /// The depthai-core numeric value.
    pub fn to_raw(self) -> (r: i32)
        ensures
            r == self.raw_of(),
    {
        match self {
            Platform::Rvc2 => DAI_PLATFORM_RVC2,
            Platform::Rvc3 => DAI_PLATFORM_RVC3,
            Platform::Rvc4 => DAI_PLATFORM_RVC4,
            Platform::Other(v) => v,
        }
    }

    /// From the depthai-core numeric value (never fails).
    pub fn from_raw(v: i32) -> (r: Self)
        ensures
            r == Self::of_raw(v),
    {
        if v == DAI_PLATFORM_RVC2 {
            Platform::Rvc2
        } else if v == DAI_PLATFORM_RVC3 {
            Platform::Rvc3
        } else if v == DAI_PLATFORM_RVC4 {
            Platform::Rvc4
        } else {
            Platform::Other(v)
        }
    }
}

impl From<Platform> for i32 {
    fn from(v: Platform) -> (r: i32) {
        v.to_raw()
    }
}

impl vstd::std_specs::convert::FromSpecImpl<Platform> for i32 {
    open spec fn obeys_from_spec() -> bool {
        true
    }

    open spec fn from_spec(v: Platform) -> i32 {
        v.raw_of()
    }
}

impl From<i32> for Platform {
    fn from(v: i32) -> (r: Platform) {
        Platform::from_raw(v)
    }
}

impl vstd::std_specs::convert::FromSpecImpl<i32> for Platform {
    open spec fn obeys_from_spec() -> bool {
        true
    }

    open spec fn from_spec(v: i32) -> Platform {
        Platform::of_raw(v)
    }
}

/// `Option<E>` as the shim takes an optional enum: the value, or `-1` (the
/// shim's sentinel for "depthai's default") for `None`.
pub fn opt_raw<E: RawEnum>(v: Option<E>) -> (r: i32)
    ensures
        r == match v {
            None => -1i32,
            Some(e) => e.raw_of(),
        },
{
    match v {
        None => -1,
        Some(e) => e.raw(),
    }
}

/// The depthai-core value of every named `CameraBoardSocket`, both ways (`Auto` is -1, `CamA` is 0, `CamB` is 1, ...);
/// any other value is carried as `Other` unchanged.
pub proof fn lemma_camera_board_socket_values()
    ensures
        CameraBoardSocket::Auto.raw_of() == -1i32,
        CameraBoardSocket::of_raw(-1i32) == CameraBoardSocket::Auto,
        CameraBoardSocket::CamA.raw_of() == 0i32,
        CameraBoardSocket::of_raw(0i32) == CameraBoardSocket::CamA,
        CameraBoardSocket::CamB.raw_of() == 1i32,
        CameraBoardSocket::of_raw(1i32) == CameraBoardSocket::CamB,
        CameraBoardSocket::CamC.raw_of() == 2i32,
        CameraBoardSocket::of_raw(2i32) == CameraBoardSocket::CamC,
        CameraBoardSocket::CamD.raw_of() == 3i32,
        CameraBoardSocket::of_raw(3i32) == CameraBoardSocket::CamD,
        CameraBoardSocket::CamE.raw_of() == 4i32,
        CameraBoardSocket::of_raw(4i32) == CameraBoardSocket::CamE,
        CameraBoardSocket::CamF.raw_of() == 5i32,
        CameraBoardSocket::of_raw(5i32) == CameraBoardSocket::CamF,
        CameraBoardSocket::CamG.raw_of() == 6i32,
        CameraBoardSocket::of_raw(6i32) == CameraBoardSocket::CamG,
        CameraBoardSocket::CamH.raw_of() == 7i32,
        CameraBoardSocket::of_raw(7i32) == CameraBoardSocket::CamH,
        forall|v: i32| v != -1i32 && v != 0i32 && v != 1i32 && v != 2i32 && v != 3i32 && v != 4i32 && v != 5i32 && v != 6i32 && v != 7i32 ==> CameraBoardSocket::of_raw(v) == CameraBoardSocket::Other(v),
        forall|v: i32| #[trigger] CameraBoardSocket::Other(v).raw_of() == v,
{
}

/// The depthai-core value of every named `UsbSpeed`, both ways (`Unknown` is 0, `Low` is 1, `Full` is 2, ...);
/// any other value is carried as `Other` unchanged.
pub proof fn lemma_usb_speed_values()
    ensures
        UsbSpeed::Unknown.raw_of() == 0i32,
        UsbSpeed::of_raw(0i32) == UsbSpeed::Unknown,
        UsbSpeed::Low.raw_of() == 1i32,
        UsbSpeed::of_raw(1i32) == UsbSpeed::Low,
        UsbSpeed::Full.raw_of() == 2i32,
        UsbSpeed::of_raw(2i32) == UsbSpeed::Full,
        UsbSpeed::High.raw_of() == 3i32,
        UsbSpeed::of_raw(3i32) == UsbSpeed::High,
        UsbSpeed::Super.raw_of() == 4i32,
        UsbSpeed::of_raw(4i32) == UsbSpeed::Super,
        UsbSpeed::SuperPlus.raw_of() == 5i32,
        UsbSpeed::of_raw(5i32) == UsbSpeed::SuperPlus,
        forall|v: i32| v != 0i32 && v != 1i32 && v != 2i32 && v != 3i32 && v != 4i32 && v != 5i32 ==> UsbSpeed::of_raw(v) == UsbSpeed::Other(v),
        forall|v: i32| #[trigger] UsbSpeed::Other(v).raw_of() == v,
{
}

/// The depthai-core value of every named `ImgResizeMode`, both ways (`Crop` is 0, `Stretch` is 1, `Letterbox` is 2, ...);
/// any other value is carried as `Other` unchanged.
pub proof fn lemma_img_resize_mode_values()
    ensures
        ImgResizeMode::Crop.raw_of() == 0i32,
        ImgResizeMode::of_raw(0i32) == ImgResizeMode::Crop,
        ImgResizeMode::Stretch.raw_of() == 1i32,
        ImgResizeMode::of_raw(1i32) == ImgResizeMode::Stretch,
        ImgResizeMode::Letterbox.raw_of() == 2i32,
        ImgResizeMode::of_raw(2i32) == ImgResizeMode::Letterbox,
        forall|v: i32| v != 0i32 && v != 1i32 && v != 2i32 ==> ImgResizeMode::of_raw(v) == ImgResizeMode::Other(v),
        forall|v: i32| #[trigger] ImgResizeMode::Other(v).raw_of() == v,
{
}

/// The depthai-core value of every named `ImgFrameType`, both ways (`Yuv420p` is 2, `Rgb888p` is 7, `Bgr888p` is 8, ...);
/// any other value is carried as `Other` unchanged.
pub proof fn lemma_img_frame_type_values()
    ensures
        ImgFrameType::Yuv420p.raw_of() == 2i32,
        ImgFrameType::of_raw(2i32) == ImgFrameType::Yuv420p,
        ImgFrameType::Rgb888p.raw_of() == 7i32,
        ImgFrameType::of_raw(7i32) == ImgFrameType::Rgb888p,
        ImgFrameType::Bgr888p.raw_of() == 8i32,
        ImgFrameType::of_raw(8i32) == ImgFrameType::Bgr888p,
        ImgFrameType::Rgb888i.raw_of() == 9i32,
        ImgFrameType::of_raw(9i32) == ImgFrameType::Rgb888i,
        ImgFrameType::Bgr888i.raw_of() == 10i32,
        ImgFrameType::of_raw(10i32) == ImgFrameType::Bgr888i,
        ImgFrameType::Raw16.raw_of() == 14i32,
        ImgFrameType::of_raw(14i32) == ImgFrameType::Raw16,
        ImgFrameType::Raw8.raw_of() == 18i32,
        ImgFrameType::of_raw(18i32) == ImgFrameType::Raw8,
        ImgFrameType::Nv12.raw_of() == 22i32,
        ImgFrameType::of_raw(22i32) == ImgFrameType::Nv12,
        ImgFrameType::Bitstream.raw_of() == 24i32,
        ImgFrameType::of_raw(24i32) == ImgFrameType::Bitstream,
        ImgFrameType::Gray8.raw_of() == 30i32,
        ImgFrameType::of_raw(30i32) == ImgFrameType::Gray8,
        ImgFrameType::NoneType.raw_of() == 33i32,
        ImgFrameType::of_raw(33i32) == ImgFrameType::NoneType,
        forall|v: i32| v != 2i32 && v != 7i32 && v != 8i32 && v != 9i32 && v != 10i32 && v != 14i32 && v != 18i32 && v != 22i32 && v != 24i32 && v != 30i32 && v != 33i32 ==> ImgFrameType::of_raw(v) == ImgFrameType::Other(v),
        forall|v: i32| #[trigger] ImgFrameType::Other(v).raw_of() == v,
{
}

/// The depthai-core value of every named `Datatype`, both ways (`ADatatype` is 0, `Buffer` is 1, `ImgFrame` is 2, ...);
/// any other value is carried as `Other` unchanged.
pub proof fn lemma_datatype_values()
    ensures
        Datatype::ADatatype.raw_of() == 0i32,
        Datatype::of_raw(0i32) == Datatype::ADatatype,
        Datatype::Buffer.raw_of() == 1i32,
        Datatype::of_raw(1i32) == Datatype::Buffer,
        Datatype::ImgFrame.raw_of() == 2i32,
        Datatype::of_raw(2i32) == Datatype::ImgFrame,
        Datatype::EncodedFrame.raw_of() == 3i32,
        Datatype::of_raw(3i32) == Datatype::EncodedFrame,
        Datatype::ImuData.raw_of() == 19i32,
        Datatype::of_raw(19i32) == Datatype::ImuData,
        Datatype::MessageGroup.raw_of() == 28i32,
        Datatype::of_raw(28i32) == Datatype::MessageGroup,
        Datatype::GateControl.raw_of() == 5i32,
        Datatype::of_raw(5i32) == Datatype::GateControl,
        Datatype::NnData.raw_of() == 6i32,
        Datatype::of_raw(6i32) == Datatype::NnData,
        Datatype::ImgDetections.raw_of() == 9i32,
        Datatype::of_raw(9i32) == Datatype::ImgDetections,
        forall|v: i32| v != 0i32 && v != 1i32 && v != 2i32 && v != 3i32 && v != 19i32 && v != 28i32 && v != 5i32 && v != 6i32 && v != 9i32 ==> Datatype::of_raw(v) == Datatype::Other(v),
        forall|v: i32| #[trigger] Datatype::Other(v).raw_of() == v,
{
}

/// The depthai-core value of every named `CameraModel`, both ways (`Perspective` is 0, `Fisheye` is 1, `Equirectangular` is 2, ...);
/// any other value is carried as `Other` unchanged.
pub proof fn lemma_camera_model_values()
    ensures
        CameraModel::Perspective.raw_of() == 0i32,
        CameraModel::of_raw(0i32) == CameraModel::Perspective,
        CameraModel::Fisheye.raw_of() == 1i32,
        CameraModel::of_raw(1i32) == CameraModel::Fisheye,
        CameraModel::Equirectangular.raw_of() == 2i32,
        CameraModel::of_raw(2i32) == CameraModel::Equirectangular,
        CameraModel::RadialDivision.raw_of() == 3i32,
        CameraModel::of_raw(3i32) == CameraModel::RadialDivision,
        forall|v: i32| v != 0i32 && v != 1i32 && v != 2i32 && v != 3i32 ==> CameraModel::of_raw(v) == CameraModel::Other(v),
        forall|v: i32| #[trigger] CameraModel::Other(v).raw_of() == v,
{
}

/// The depthai-core value of every named `LengthUnit`, both ways (`Meter` is 0, `Centimeter` is 1, `Millimeter` is 2, ...);
/// any other value is carried as `Other` unchanged.
pub proof fn lemma_length_unit_values()
    ensures
        LengthUnit::Meter.raw_of() == 0i32,
        LengthUnit::of_raw(0i32) == LengthUnit::Meter,
        LengthUnit::Centimeter.raw_of() == 1i32,
        LengthUnit::of_raw(1i32) == LengthUnit::Centimeter,
        LengthUnit::Millimeter.raw_of() == 2i32,
        LengthUnit::of_raw(2i32) == LengthUnit::Millimeter,
        LengthUnit::Inch.raw_of() == 3i32,
        LengthUnit::of_raw(3i32) == LengthUnit::Inch,
        LengthUnit::Foot.raw_of() == 4i32,
        LengthUnit::of_raw(4i32) == LengthUnit::Foot,
        LengthUnit::Custom.raw_of() == 5i32,
        LengthUnit::of_raw(5i32) == LengthUnit::Custom,
        forall|v: i32| v != 0i32 && v != 1i32 && v != 2i32 && v != 3i32 && v != 4i32 && v != 5i32 ==> LengthUnit::of_raw(v) == LengthUnit::Other(v),
        forall|v: i32| #[trigger] LengthUnit::Other(v).raw_of() == v,
{
}

/// The depthai-core value of every named `ImuSensor`, both ways (`AccelerometerRaw` is 20, `AccelerometerCalibrated` is 1, `GyroscopeRaw` is 21, ...);
/// any other value is carried as `Other` unchanged.
pub proof fn lemma_imu_sensor_values()
    ensures
        ImuSensor::AccelerometerRaw.raw_of() == 20i32,
        ImuSensor::of_raw(20i32) == ImuSensor::AccelerometerRaw,
        ImuSensor::AccelerometerCalibrated.raw_of() == 1i32,
        ImuSensor::of_raw(1i32) == ImuSensor::AccelerometerCalibrated,
        ImuSensor::GyroscopeRaw.raw_of() == 21i32,
        ImuSensor::of_raw(21i32) == ImuSensor::GyroscopeRaw,
        ImuSensor::MagnetometerRaw.raw_of() == 22i32,
        ImuSensor::of_raw(22i32) == ImuSensor::MagnetometerRaw,
        ImuSensor::RotationVector.raw_of() == 5i32,
        ImuSensor::of_raw(5i32) == ImuSensor::RotationVector,
        forall|v: i32| v != 20i32 && v != 1i32 && v != 21i32 && v != 22i32 && v != 5i32 ==> ImuSensor::of_raw(v) == ImuSensor::Other(v),
        forall|v: i32| #[trigger] ImuSensor::Other(v).raw_of() == v,
{
}

/// The depthai-core value of every named `ImuAccuracy`, both ways (`Unreliable` is 0, `Low` is 1, `Medium` is 2, ...);
/// any other value is carried as `Other` unchanged.
pub proof fn lemma_imu_accuracy_values()
    ensures
        ImuAccuracy::Unreliable.raw_of() == 0i32,
        ImuAccuracy::of_raw(0i32) == ImuAccuracy::Unreliable,
        ImuAccuracy::Low.raw_of() == 1i32,
        ImuAccuracy::of_raw(1i32) == ImuAccuracy::Low,
        ImuAccuracy::Medium.raw_of() == 2i32,
        ImuAccuracy::of_raw(2i32) == ImuAccuracy::Medium,
        ImuAccuracy::High.raw_of() == 3i32,
        ImuAccuracy::of_raw(3i32) == ImuAccuracy::High,
        forall|v: i32| v != 0i32 && v != 1i32 && v != 2i32 && v != 3i32 ==> ImuAccuracy::of_raw(v) == ImuAccuracy::Other(v),
        forall|v: i32| #[trigger] ImuAccuracy::Other(v).raw_of() == v,
{
}

/// The depthai-core value of every named `VideoEncoderProfile`, both ways (`H264Baseline` is 0, `H264High` is 1, `H264Main` is 2, ...);
/// any other value is carried as `Other` unchanged.
pub proof fn lemma_video_encoder_profile_values()
    ensures
        VideoEncoderProfile::H264Baseline.raw_of() == 0i32,
        VideoEncoderProfile::of_raw(0i32) == VideoEncoderProfile::H264Baseline,
        VideoEncoderProfile::H264High.raw_of() == 1i32,
        VideoEncoderProfile::of_raw(1i32) == VideoEncoderProfile::H264High,
        VideoEncoderProfile::H264Main.raw_of() == 2i32,
        VideoEncoderProfile::of_raw(2i32) == VideoEncoderProfile::H264Main,
        VideoEncoderProfile::H265Main.raw_of() == 3i32,
        VideoEncoderProfile::of_raw(3i32) == VideoEncoderProfile::H265Main,
        VideoEncoderProfile::Mjpeg.raw_of() == 4i32,
        VideoEncoderProfile::of_raw(4i32) == VideoEncoderProfile::Mjpeg,
        forall|v: i32| v != 0i32 && v != 1i32 && v != 2i32 && v != 3i32 && v != 4i32 ==> VideoEncoderProfile::of_raw(v) == VideoEncoderProfile::Other(v),
        forall|v: i32| #[trigger] VideoEncoderProfile::Other(v).raw_of() == v,
{
}

/// The depthai-core value of every named `RateControlMode`, both ways (`Cbr` is 0, `Vbr` is 1, ...);
/// any other value is carried as `Other` unchanged.
pub proof fn lemma_rate_control_mode_values()
    ensures
        RateControlMode::Cbr.raw_of() == 0i32,
        RateControlMode::of_raw(0i32) == RateControlMode::Cbr,
        RateControlMode::Vbr.raw_of() == 1i32,
        RateControlMode::of_raw(1i32) == RateControlMode::Vbr,
        forall|v: i32| v != 0i32 && v != 1i32 ==> RateControlMode::of_raw(v) == RateControlMode::Other(v),
        forall|v: i32| #[trigger] RateControlMode::Other(v).raw_of() == v,
{
}

/// The depthai-core value of every named `StereoPresetMode`, both ways (`FastAccuracy` is 0, `FastDensity` is 1, `Default` is 2, ...);
/// any other value is carried as `Other` unchanged.
pub proof fn lemma_stereo_preset_mode_values()
    ensures
        StereoPresetMode::FastAccuracy.raw_of() == 0i32,
        StereoPresetMode::of_raw(0i32) == StereoPresetMode::FastAccuracy,
        StereoPresetMode::FastDensity.raw_of() == 1i32,
        StereoPresetMode::of_raw(1i32) == StereoPresetMode::FastDensity,
        StereoPresetMode::Default.raw_of() == 2i32,
        StereoPresetMode::of_raw(2i32) == StereoPresetMode::Default,
        StereoPresetMode::Face.raw_of() == 3i32,
        StereoPresetMode::of_raw(3i32) == StereoPresetMode::Face,
        StereoPresetMode::HighDetail.raw_of() == 4i32,
        StereoPresetMode::of_raw(4i32) == StereoPresetMode::HighDetail,
        StereoPresetMode::Robotics.raw_of() == 5i32,
        StereoPresetMode::of_raw(5i32) == StereoPresetMode::Robotics,
        StereoPresetMode::Density.raw_of() == 6i32,
        StereoPresetMode::of_raw(6i32) == StereoPresetMode::Density,
        StereoPresetMode::Accuracy.raw_of() == 7i32,
        StereoPresetMode::of_raw(7i32) == StereoPresetMode::Accuracy,
        forall|v: i32| v != 0i32 && v != 1i32 && v != 2i32 && v != 3i32 && v != 4i32 && v != 5i32 && v != 6i32 && v != 7i32 ==> StereoPresetMode::of_raw(v) == StereoPresetMode::Other(v),
        forall|v: i32| #[trigger] StereoPresetMode::Other(v).raw_of() == v,
{
}

/// The depthai-core value of every named `DeviceState`, both ways (`Any` is 0, `Booted` is 1, `Unbooted` is 2, ...);
/// any other value is carried as `Other` unchanged.
pub proof fn lemma_device_state_values()
    ensures
        DeviceState::Any.raw_of() == 0i32,
        DeviceState::of_raw(0i32) == DeviceState::Any,
        DeviceState::Booted.raw_of() == 1i32,
        DeviceState::of_raw(1i32) == DeviceState::Booted,
        DeviceState::Unbooted.raw_of() == 2i32,
        DeviceState::of_raw(2i32) == DeviceState::Unbooted,
        DeviceState::Bootloader.raw_of() == 3i32,
        DeviceState::of_raw(3i32) == DeviceState::Bootloader,
        DeviceState::FlashBooted.raw_of() == 4i32,
        DeviceState::of_raw(4i32) == DeviceState::FlashBooted,
        forall|v: i32| v != 0i32 && v != 1i32 && v != 2i32 && v != 3i32 && v != 4i32 ==> DeviceState::of_raw(v) == DeviceState::Other(v),
        forall|v: i32| #[trigger] DeviceState::Other(v).raw_of() == v,
{
}

/// The depthai-core value of every named `XLinkProtocol`, both ways (`UsbVsc` is 0, `UsbCdc` is 1, `Pcie` is 2, ...);
/// any other value is carried as `Other` unchanged.
pub proof fn lemma_x_link_protocol_values()
    ensures
        XLinkProtocol::UsbVsc.raw_of() == 0i32,
        XLinkProtocol::of_raw(0i32) == XLinkProtocol::UsbVsc,
        XLinkProtocol::UsbCdc.raw_of() == 1i32,
        XLinkProtocol::of_raw(1i32) == XLinkProtocol::UsbCdc,
        XLinkProtocol::Pcie.raw_of() == 2i32,
        XLinkProtocol::of_raw(2i32) == XLinkProtocol::Pcie,
        XLinkProtocol::Ipc.raw_of() == 3i32,
        XLinkProtocol::of_raw(3i32) == XLinkProtocol::Ipc,
        XLinkProtocol::TcpIp.raw_of() == 4i32,
        XLinkProtocol::of_raw(4i32) == XLinkProtocol::TcpIp,
        XLinkProtocol::LocalShdmem.raw_of() == 5i32,
        XLinkProtocol::of_raw(5i32) == XLinkProtocol::LocalShdmem,
        XLinkProtocol::TcpIpOrLocalShdmem.raw_of() == 6i32,
        XLinkProtocol::of_raw(6i32) == XLinkProtocol::TcpIpOrLocalShdmem,
        XLinkProtocol::UsbEp.raw_of() == 7i32,
        XLinkProtocol::of_raw(7i32) == XLinkProtocol::UsbEp,
        XLinkProtocol::Any.raw_of() == 9i32,
        XLinkProtocol::of_raw(9i32) == XLinkProtocol::Any,
        forall|v: i32| v != 0i32 && v != 1i32 && v != 2i32 && v != 3i32 && v != 4i32 && v != 5i32 && v != 6i32 && v != 7i32 && v != 9i32 ==> XLinkProtocol::of_raw(v) == XLinkProtocol::Other(v),
        forall|v: i32| #[trigger] XLinkProtocol::Other(v).raw_of() == v,
{
}

/// The depthai-core value of every named `XLinkPlatform`, both ways (`Any` is 0, `Myriad2` is 2450, `MyriadX` is 2480, ...);
/// any other value is carried as `Other` unchanged.
pub proof fn lemma_x_link_platform_values()
    ensures
        XLinkPlatform::Any.raw_of() == 0i32,
        XLinkPlatform::of_raw(0i32) == XLinkPlatform::Any,
        XLinkPlatform::Myriad2.raw_of() == 2450i32,
        XLinkPlatform::of_raw(2450i32) == XLinkPlatform::Myriad2,
        XLinkPlatform::MyriadX.raw_of() == 2480i32,
        XLinkPlatform::of_raw(2480i32) == XLinkPlatform::MyriadX,
        XLinkPlatform::Rvc3.raw_of() == 3000i32,
        XLinkPlatform::of_raw(3000i32) == XLinkPlatform::Rvc3,
        XLinkPlatform::Rvc4.raw_of() == 4000i32,
        XLinkPlatform::of_raw(4000i32) == XLinkPlatform::Rvc4,
        forall|v: i32| v != 0i32 && v != 2450i32 && v != 2480i32 && v != 3000i32 && v != 4000i32 ==> XLinkPlatform::of_raw(v) == XLinkPlatform::Other(v),
        forall|v: i32| #[trigger] XLinkPlatform::Other(v).raw_of() == v,
{
}

/// The depthai-core value of every named `EncodedFrameProfile`, both ways (`Jpeg` is 0, `Avc` is 1, `Hevc` is 2, ...);
/// any other value is carried as `Other` unchanged.
pub proof fn lemma_encoded_frame_profile_values()
    ensures
        EncodedFrameProfile::Jpeg.raw_of() == 0i32,
        EncodedFrameProfile::of_raw(0i32) == EncodedFrameProfile::Jpeg,
        EncodedFrameProfile::Avc.raw_of() == 1i32,
        EncodedFrameProfile::of_raw(1i32) == EncodedFrameProfile::Avc,
        EncodedFrameProfile::Hevc.raw_of() == 2i32,
        EncodedFrameProfile::of_raw(2i32) == EncodedFrameProfile::Hevc,
        forall|v: i32| v != 0i32 && v != 1i32 && v != 2i32 ==> EncodedFrameProfile::of_raw(v) == EncodedFrameProfile::Other(v),
        forall|v: i32| #[trigger] EncodedFrameProfile::Other(v).raw_of() == v,
{
}

/// The depthai-core value of every named `EncodedFrameType`, both ways (`I` is 0, `P` is 1, `B` is 2, ...);
/// any other value is carried as `Other` unchanged.
pub proof fn lemma_encoded_frame_type_values()
    ensures
        EncodedFrameType::I.raw_of() == 0i32,
        EncodedFrameType::of_raw(0i32) == EncodedFrameType::I,
        EncodedFrameType::P.raw_of() == 1i32,
        EncodedFrameType::of_raw(1i32) == EncodedFrameType::P,
        EncodedFrameType::B.raw_of() == 2i32,
        EncodedFrameType::of_raw(2i32) == EncodedFrameType::B,
        EncodedFrameType::Unknown.raw_of() == 3i32,
        EncodedFrameType::of_raw(3i32) == EncodedFrameType::Unknown,
        forall|v: i32| v != 0i32 && v != 1i32 && v != 2i32 && v != 3i32 ==> EncodedFrameType::of_raw(v) == EncodedFrameType::Other(v),
        forall|v: i32| #[trigger] EncodedFrameType::Other(v).raw_of() == v,
{
}

/// The depthai-core value of every named `TensorDataType`, both ways (`Fp16` is 0, `U8f` is 1, `Int` is 2, ...);
/// any other value is carried as `Other` unchanged.
pub proof fn lemma_tensor_data_type_values()
    ensures
        TensorDataType::Fp16.raw_of() == 0i32,
        TensorDataType::of_raw(0i32) == TensorDataType::Fp16,
        TensorDataType::U8f.raw_of() == 1i32,
        TensorDataType::of_raw(1i32) == TensorDataType::U8f,
        TensorDataType::Int.raw_of() == 2i32,
        TensorDataType::of_raw(2i32) == TensorDataType::Int,
        TensorDataType::Fp32.raw_of() == 3i32,
        TensorDataType::of_raw(3i32) == TensorDataType::Fp32,
        TensorDataType::I8.raw_of() == 4i32,
        TensorDataType::of_raw(4i32) == TensorDataType::I8,
        TensorDataType::Fp64.raw_of() == 5i32,
        TensorDataType::of_raw(5i32) == TensorDataType::Fp64,
        TensorDataType::U16f.raw_of() == 6i32,
        TensorDataType::of_raw(6i32) == TensorDataType::U16f,
        forall|v: i32| v != 0i32 && v != 1i32 && v != 2i32 && v != 3i32 && v != 4i32 && v != 5i32 && v != 6i32 ==> TensorDataType::of_raw(v) == TensorDataType::Other(v),
        forall|v: i32| #[trigger] TensorDataType::Other(v).raw_of() == v,
{
}

/// The depthai-core value of every named `StorageOrder`, both ways (`Nhwc` is 16915, `Nhcw` is 16945, `Nchw` is 17185, ...);
/// any other value is carried as `Other` unchanged.
pub proof fn lemma_storage_order_values()
    ensures
        StorageOrder::Nhwc.raw_of() == 16915i32,
        StorageOrder::of_raw(16915i32) == StorageOrder::Nhwc,
        StorageOrder::Nhcw.raw_of() == 16945i32,
        StorageOrder::of_raw(16945i32) == StorageOrder::Nhcw,
        StorageOrder::Nchw.raw_of() == 17185i32,
        StorageOrder::of_raw(17185i32) == StorageOrder::Nchw,
        StorageOrder::Hwc.raw_of() == 531i32,
        StorageOrder::of_raw(531i32) == StorageOrder::Hwc,
        StorageOrder::Chw.raw_of() == 801i32,
        StorageOrder::of_raw(801i32) == StorageOrder::Chw,
        StorageOrder::Nc.raw_of() == 67i32,
        StorageOrder::of_raw(67i32) == StorageOrder::Nc,
        StorageOrder::C.raw_of() == 3i32,
        StorageOrder::of_raw(3i32) == StorageOrder::C,
        forall|v: i32| v != 16915i32 && v != 16945i32 && v != 17185i32 && v != 531i32 && v != 801i32 && v != 67i32 && v != 3i32 ==> StorageOrder::of_raw(v) == StorageOrder::Other(v),
        forall|v: i32| #[trigger] StorageOrder::Other(v).raw_of() == v,
{
}

/// The depthai-core value of every named `Platform`, both ways (`Rvc2` is 0, `Rvc3` is 1, `Rvc4` is 2, ...);
/// any other value is carried as `Other` unchanged.
pub proof fn lemma_platform_values()
    ensures
        Platform::Rvc2.raw_of() == 0i32,
        Platform::of_raw(0i32) == Platform::Rvc2,
        Platform::Rvc3.raw_of() == 1i32,
        Platform::of_raw(1i32) == Platform::Rvc3,
        Platform::Rvc4.raw_of() == 2i32,
        Platform::of_raw(2i32) == Platform::Rvc4,
        forall|v: i32| v != 0i32 && v != 1i32 && v != 2i32 ==> Platform::of_raw(v) == Platform::Other(v),
        forall|v: i32| #[trigger] Platform::Other(v).raw_of() == v,
{
}

} // verus!
