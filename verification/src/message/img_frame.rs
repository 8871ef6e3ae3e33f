//! [`ImgFrame`]: one image (or encoder bitstream chunk) from the device.

use vstd::prelude::*;

use crate::enums::{Datatype, ImgFrameType, RawEnum};
use crate::error::{DepthaiError, Result};
use crate::message::{payload_fits, AnyMessage, Detail, Message, MessageView, Sealed};
use crate::raw::dai_img_frame_info;

verus! {

/// The image-specific metadata of an [`ImgFrame`] (timestamps, sequence number
/// and byte length are in the [`MessageHeader`](crate::message::MessageHeader)).
#[derive(Debug, Clone, Copy, PartialEq, Eq, Structural)]
pub struct ImgFrameInfo {
    pub width: u32,
    pub height: u32,
    /// Row stride in bytes as depthai reports it. **May be 0** on some paths;
    /// treat 0 as "tightly packed" only after checking
    /// `data().len() >= width * height * bytes_per_pixel`.
    pub stride: u32,
    pub img_type: ImgFrameType,
    /// `getInstanceNum()`: for camera frames, the board socket the frame came from.
    pub instance_num: u32,
}

/// The metadata the shim's frame record describes.
pub open spec fn img_frame_info_of(raw: dai_img_frame_info) -> ImgFrameInfo {
    ImgFrameInfo {
        width: raw.width,
        height: raw.height,
        stride: raw.stride,
        img_type: ImgFrameType::of_raw(raw.type_),
        instance_num: raw.instance_num,
    }
}

/// A frame's metadata is its record's fields, each in its own place: the
/// width is the record's width and the stride its stride, the pixel type is
/// read from the record's type value.
pub proof fn lemma_img_frame_info_fields(raw: dai_img_frame_info)
    ensures
        img_frame_info_of(raw).width == raw.width,
        img_frame_info_of(raw).height == raw.height,
        img_frame_info_of(raw).stride == raw.stride,
        img_frame_info_of(raw).img_type == ImgFrameType::of_raw(raw.type_),
        img_frame_info_of(raw).instance_num == raw.instance_num,
{
}

/// A `dai::ImgFrame`.
#[derive(Debug)]
pub struct ImgFrame {
    any: AnyMessage,
    info: ImgFrameInfo,
}

impl ImgFrame {
    #[verifier::type_invariant]
    closed spec fn info_is_the_record(&self) -> bool {
        self.any@.detail matches Detail::ImgFrame(raw) && self.info == img_frame_info_of(raw)
    }

    /// The metadata this frame carries: what the shim's frame record says.
    pub closed spec fn spec_info(&self) -> ImgFrameInfo {
        self.info
    }

    pub fn info(&self) -> (r: &ImgFrameInfo)
        ensures
            *r == self.spec_info(),
            self.any_view().detail matches Detail::ImgFrame(raw) && *r == img_frame_info_of(raw)
                && r.width == raw.width && r.height == raw.height && r.stride == raw.stride
                && r.img_type == ImgFrameType::of_raw(raw.type_) && r.instance_num
                == raw.instance_num,
    {
        proof {
            use_type_invariant(self);
        }
        &self.info
    }

    /// The pixel (or bitstream) bytes. Layout depends on
    /// [`img_type`](Self::img_type) and [`stride`](Self::stride).
    pub fn data(&self) -> (r: &[u8])
        ensures
            r@ == self.any_view().data,
            payload_fits(self.any_view().header.data_len, r@),
    {
        self.any.data()
    }

    pub fn width(&self) -> (r: u32)
        ensures
            r == self.spec_info().width,
            self.any_view().detail matches Detail::ImgFrame(raw) && r == raw.width,
    {
        proof {
            use_type_invariant(self);
        }
        self.info.width
    }

    pub fn height(&self) -> (r: u32)
        ensures
            r == self.spec_info().height,
            self.any_view().detail matches Detail::ImgFrame(raw) && r == raw.height,
    {
        proof {
            use_type_invariant(self);
        }
        self.info.height
    }

    /// Row stride in bytes as depthai reports it (may be 0, see [`ImgFrameInfo::stride`]).
    pub fn stride(&self) -> (r: u32)
        ensures
            r == self.spec_info().stride,
            self.any_view().detail matches Detail::ImgFrame(raw) && r == raw.stride,
    {
        proof {
            use_type_invariant(self);
        }
        self.info.stride
    }

    pub fn img_type(&self) -> (r: ImgFrameType)
        ensures
            r == self.spec_info().img_type,
            self.any_view().detail matches Detail::ImgFrame(raw) && r == ImgFrameType::of_raw(
                raw.type_,
            ),
    {
        proof {
            use_type_invariant(self);
        }
        self.info.img_type
    }

    pub fn instance_num(&self) -> (r: u32)
        ensures
            r == self.spec_info().instance_num,
            self.any_view().detail matches Detail::ImgFrame(raw) && r == raw.instance_num,
    {
        proof {
            use_type_invariant(self);
        }
        self.info.instance_num
    }
}

impl Clone for ImgFrame {
    fn clone(&self) -> (r: ImgFrame)
        ensures
            r.any_view() == self.any_view(),
            r.spec_info() == self.spec_info(),
    {
        proof {
            use_type_invariant(self);
        }
        ImgFrame { any: self.any.clone(), info: self.info }
    }
}

impl Sealed for ImgFrame {}

impl Message for ImgFrame {
    open spec fn accepts() -> Option<Datatype> {
        Some(Datatype::ImgFrame)
    }

    closed spec fn any_view(&self) -> MessageView {
        self.any@
    }

    fn accepted_datatype() -> (r: Option<Datatype>) {
        Some(Datatype::ImgFrame)
    }

    fn from_any(any: AnyMessage) -> (r: Result<Self>) {
        match any.detail() {
            Detail::ImgFrame(raw) => {
                let info = ImgFrameInfo {
                    width: raw.width,
                    height: raw.height,
                    stride: raw.stride,
                    img_type: ImgFrameType::from_raw(raw.type_),
                    instance_num: raw.instance_num,
                };
                Ok(ImgFrame { any, info })
            },
            _ => {
                let got = any.datatype();
                Err(DepthaiError::UnexpectedDatatype { expected: Datatype::ImgFrame, got })
            },
        }
    }

    fn as_any(&self) -> (r: &AnyMessage) {
        &self.any
    }
}

} // verus!
