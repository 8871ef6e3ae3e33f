//! The plain-data side of the depthai C shim: the numeric constants of its
//! enums and the POD structs it fills in. The handles and the calls live with
//! the caller that links the shim; everything here is a value.

use vstd::prelude::*;

verus! {

/// Return code of a shim call that succeeded.
pub const DAI_OK: i32 = 0;
/// Return code of a shim call that failed; the message is in the shim's last error.
pub const DAI_ERR: i32 = -1;

// `dai::CameraBoardSocket`
pub const DAI_CAM_AUTO: i32 = -1;
pub const DAI_CAM_A: i32 = 0;
pub const DAI_CAM_B: i32 = 1;
pub const DAI_CAM_C: i32 = 2;
pub const DAI_CAM_D: i32 = 3;
pub const DAI_CAM_E: i32 = 4;
pub const DAI_CAM_F: i32 = 5;
pub const DAI_CAM_G: i32 = 6;
pub const DAI_CAM_H: i32 = 7;

// `dai::UsbSpeed`
pub const DAI_USB_UNKNOWN: i32 = 0;
pub const DAI_USB_LOW: i32 = 1;
pub const DAI_USB_FULL: i32 = 2;
pub const DAI_USB_HIGH: i32 = 3;
pub const DAI_USB_SUPER: i32 = 4;
pub const DAI_USB_SUPER_PLUS: i32 = 5;

// `dai::ImgResizeMode`
pub const DAI_RESIZE_CROP: i32 = 0;
pub const DAI_RESIZE_STRETCH: i32 = 1;
pub const DAI_RESIZE_LETTERBOX: i32 = 2;

// `dai::ImgFrame::Type`
pub const DAI_IMG_YUV420P: i32 = 2;
pub const DAI_IMG_RGB888P: i32 = 7;
pub const DAI_IMG_BGR888P: i32 = 8;
pub const DAI_IMG_RGB888I: i32 = 9;
pub const DAI_IMG_BGR888I: i32 = 10;
pub const DAI_IMG_RAW16: i32 = 14;
pub const DAI_IMG_RAW8: i32 = 18;
pub const DAI_IMG_NV12: i32 = 22;
pub const DAI_IMG_BITSTREAM: i32 = 24;
pub const DAI_IMG_GRAY8: i32 = 30;
pub const DAI_IMG_NONE: i32 = 33;

// `dai::DatatypeEnum`
pub const DAI_DT_ADATATYPE: i32 = 0;
pub const DAI_DT_BUFFER: i32 = 1;
pub const DAI_DT_IMG_FRAME: i32 = 2;
pub const DAI_DT_ENCODED_FRAME: i32 = 3;
pub const DAI_DT_GATE_CONTROL: i32 = 5;
pub const DAI_DT_NN_DATA: i32 = 6;
pub const DAI_DT_IMG_DETECTIONS: i32 = 9;
pub const DAI_DT_IMU_DATA: i32 = 19;
pub const DAI_DT_MESSAGE_GROUP: i32 = 28;

// `dai::CameraModel`
pub const DAI_CAMERA_MODEL_PERSPECTIVE: i32 = 0;
pub const DAI_CAMERA_MODEL_FISHEYE: i32 = 1;
pub const DAI_CAMERA_MODEL_EQUIRECTANGULAR: i32 = 2;
pub const DAI_CAMERA_MODEL_RADIAL_DIVISION: i32 = 3;

// `dai::LengthUnit`
pub const DAI_LENGTH_METER: i32 = 0;
pub const DAI_LENGTH_CENTIMETER: i32 = 1;
pub const DAI_LENGTH_MILLIMETER: i32 = 2;
pub const DAI_LENGTH_INCH: i32 = 3;
pub const DAI_LENGTH_FOOT: i32 = 4;
pub const DAI_LENGTH_CUSTOM: i32 = 5;

// `dai::IMUSensor`
pub const DAI_IMU_ACCELEROMETER_RAW: i32 = 0x14;
pub const DAI_IMU_ACCELEROMETER_CALIBRATED: i32 = 0x01;
pub const DAI_IMU_GYROSCOPE_RAW: i32 = 0x15;
pub const DAI_IMU_MAGNETOMETER_RAW: i32 = 0x16;
pub const DAI_IMU_ROTATION_VECTOR: i32 = 0x05;

// `dai::IMUReport::Accuracy`
pub const DAI_IMU_ACCURACY_UNRELIABLE: i32 = 0;
pub const DAI_IMU_ACCURACY_LOW: i32 = 1;
pub const DAI_IMU_ACCURACY_MEDIUM: i32 = 2;
pub const DAI_IMU_ACCURACY_HIGH: i32 = 3;

// `dai::VideoEncoderProperties`
pub const DAI_VENC_H264_BASELINE: i32 = 0;
pub const DAI_VENC_H264_HIGH: i32 = 1;
pub const DAI_VENC_H264_MAIN: i32 = 2;
pub const DAI_VENC_H265_MAIN: i32 = 3;
pub const DAI_VENC_MJPEG: i32 = 4;
pub const DAI_VENC_RC_CBR: i32 = 0;
pub const DAI_VENC_RC_VBR: i32 = 1;

// `dai::node::StereoDepth::PresetMode`
pub const DAI_STEREO_PRESET_FAST_ACCURACY: i32 = 0;
pub const DAI_STEREO_PRESET_FAST_DENSITY: i32 = 1;
pub const DAI_STEREO_PRESET_DEFAULT: i32 = 2;
pub const DAI_STEREO_PRESET_FACE: i32 = 3;
pub const DAI_STEREO_PRESET_HIGH_DETAIL: i32 = 4;
pub const DAI_STEREO_PRESET_ROBOTICS: i32 = 5;
pub const DAI_STEREO_PRESET_DENSITY: i32 = 6;
pub const DAI_STEREO_PRESET_ACCURACY: i32 = 7;

// `XLinkDeviceState_t`
pub const DAI_XLINK_STATE_ANY: i32 = 0;
pub const DAI_XLINK_STATE_BOOTED: i32 = 1;
pub const DAI_XLINK_STATE_UNBOOTED: i32 = 2;
pub const DAI_XLINK_STATE_BOOTLOADER: i32 = 3;
pub const DAI_XLINK_STATE_FLASH_BOOTED: i32 = 4;

// `XLinkProtocol_t`
pub const DAI_XLINK_PROTOCOL_USB_VSC: i32 = 0;
pub const DAI_XLINK_PROTOCOL_USB_CDC: i32 = 1;
pub const DAI_XLINK_PROTOCOL_PCIE: i32 = 2;
pub const DAI_XLINK_PROTOCOL_IPC: i32 = 3;
pub const DAI_XLINK_PROTOCOL_TCP_IP: i32 = 4;
pub const DAI_XLINK_PROTOCOL_LOCAL_SHDMEM: i32 = 5;
pub const DAI_XLINK_PROTOCOL_TCP_IP_OR_LOCAL_SHDMEM: i32 = 6;
pub const DAI_XLINK_PROTOCOL_USB_EP: i32 = 7;
pub const DAI_XLINK_PROTOCOL_ANY: i32 = 9;

// `XLinkPlatform_t`
pub const DAI_XLINK_PLATFORM_ANY: i32 = 0;
pub const DAI_XLINK_PLATFORM_MYRIAD_2: i32 = 2450;
pub const DAI_XLINK_PLATFORM_MYRIAD_X: i32 = 2480;
pub const DAI_XLINK_PLATFORM_RVC3: i32 = 3000;
pub const DAI_XLINK_PLATFORM_RVC4: i32 = 4000;

// `dai::EncodedFrame` profile and frame type
pub const DAI_ENC_PROFILE_JPEG: i32 = 0;
pub const DAI_ENC_PROFILE_AVC: i32 = 1;
pub const DAI_ENC_PROFILE_HEVC: i32 = 2;
pub const DAI_ENC_FRAME_I: i32 = 0;
pub const DAI_ENC_FRAME_P: i32 = 1;
pub const DAI_ENC_FRAME_B: i32 = 2;
pub const DAI_ENC_FRAME_UNKNOWN: i32 = 3;

// `dai::TensorInfo` data type and storage order
pub const DAI_TENSOR_FP16: i32 = 0;
pub const DAI_TENSOR_U8F: i32 = 1;
pub const DAI_TENSOR_INT: i32 = 2;
pub const DAI_TENSOR_FP32: i32 = 3;
pub const DAI_TENSOR_I8: i32 = 4;
pub const DAI_TENSOR_FP64: i32 = 5;
pub const DAI_TENSOR_U16F: i32 = 6;
pub const DAI_ORDER_NHWC: i32 = 0x4213;
pub const DAI_ORDER_NHCW: i32 = 0x4231;
pub const DAI_ORDER_NCHW: i32 = 0x4321;
pub const DAI_ORDER_HWC: i32 = 0x213;
pub const DAI_ORDER_CHW: i32 = 0x321;
pub const DAI_ORDER_NC: i32 = 0x43;
pub const DAI_ORDER_C: i32 = 0x3;

// `dai::Platform`
pub const DAI_PLATFORM_RVC2: i32 = 0;
pub const DAI_PLATFORM_RVC3: i32 = 1;
pub const DAI_PLATFORM_RVC4: i32 = 2;

/// The depthai-core tag the constants above were pinned against.
pub const DEPTHAI_CORE_TAG: &'static str = "v3.7.1";

/// One entry of `dai::Device::getAllAvailableDevices()`: NUL-terminated
/// fixed-size strings plus the raw XLink enums.
#[derive(Clone, Copy)]
pub struct dai_device_info {
    pub name: [u8; 64],
    pub device_id: [u8; 64],
    pub state: i32,
    pub protocol: i32,
    pub platform: i32,
    pub status: i32,
    pub reserved_: [i32; 2],
}

impl dai_device_info {
    /// Every field zero.
    pub open spec fn is_zeroed(&self) -> bool {
        &&& self.name@ == Seq::new(64, |i: int| 0u8)
        &&& self.device_id@ == Seq::new(64, |i: int| 0u8)
        &&& self.state == 0
        &&& self.protocol == 0
        &&& self.platform == 0
        &&& self.status == 0
        &&& self.reserved_@ == seq![0i32, 0i32]
    }
}

impl Default for dai_device_info {
    /// All-zero, the value the shim expects for an unfilled entry.
    fn default() -> (r: Self)
        ensures
            r.is_zeroed(),
    {
        let r = dai_device_info {
            name: [0u8; 64],
            device_id: [0u8; 64],
            state: 0,
            protocol: 0,
            platform: 0,
            status: 0,
            reserved_: [0i32; 2],
        };
        assert(r.name@ =~= Seq::new(64, |i: int| 0u8));
        assert(r.device_id@ =~= Seq::new(64, |i: int| 0u8));
        assert(r.reserved_@ =~= seq![0i32, 0i32]);
        r
    }
}

/// The `dai::ADatatype` / `dai::Buffer` getters every message has, in one copy.
/// The shim also reports where the payload bytes start; those bytes travel
/// beside this record as a byte vector.
#[derive(Clone, Copy, Debug, Default)]
pub struct dai_buffer_info {
    pub datatype: i32,
    pub pad_: u32,
    pub timestamp_ns: i64,
    pub timestamp_device_ns: i64,
    pub sequence_num: i64,
    pub data_len: usize,
}

/// Everything about a `dai::ImgFrame` except its pixels.
#[derive(Clone, Copy, Debug, Default)]
pub struct dai_img_frame_info {
    pub width: u32,
    pub height: u32,
    pub stride: u32,
    pub type_: i32,
    pub instance_num: u32,
    pub pad_: u32,
    pub sequence_num: i64,
    pub timestamp_ns: i64,
    pub timestamp_device_ns: i64,
    pub data_len: usize,
}

/// `dai::NNModelDescription` as the shim takes it: every field a NUL-terminated
/// byte string, `None` where the shim is handed NULL (depthai's default).
#[derive(Clone, Debug, PartialEq, Eq)]
pub struct dai_nn_model_description {
    pub model: Vec<u8>,
    pub platform: Option<Vec<u8>>,
    pub optimization_level: Option<Vec<u8>>,
    pub compression_level: Option<Vec<u8>>,
    pub snpe_version: Option<Vec<u8>>,
    pub model_precision_type: Option<Vec<u8>>,
}

/// `dai::EncodedFrame` metadata.
#[derive(Clone, Copy, Debug, Default)]
pub struct dai_encoded_frame_info {
    pub width: u32,
    pub height: u32,
    pub profile: i32,
    pub frame_type: i32,
    pub quality: u32,
    pub bitrate: u32,
    pub lossless: i32,
    pub instance_num: u32,
    pub sequence_num: i64,
    pub timestamp_ns: i64,
    pub data_len: usize,
}

/// `dai::TensorInfo` as the shim reports it. The quantisation scale and zero
/// point the shim reports with it are floating point and travel beside this
/// record.
#[derive(Clone, Copy, Debug)]
pub struct dai_tensor_info {
    pub name: [u8; 64],
    pub datatype: i32,
    pub order: i32,
    pub num_dims: u32,
    pub dims: [u32; 8],
    pub num_strides: u32,
    pub strides: [u32; 8],
    pub offset: u32,
    pub quantization: i32,
    pub elem_size: u32,
}

} // verus!
