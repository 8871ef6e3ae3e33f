//! [`EncodedFrame`]: the video encoder's typed output (`out`), as opposed to its
//! `bitstream` [`ImgFrame`](super::ImgFrame).

use vstd::prelude::*;

use crate::enums::{Datatype, EncodedFrameProfile, EncodedFrameType, RawEnum};
use crate::error::{DepthaiError, Result};
use crate::message::{payload_fits, AnyMessage, Detail, Message, MessageView, Sealed};
use crate::raw::dai_encoded_frame_info;

verus! {

/// The encoder-specific metadata of an [`EncodedFrame`].
#[derive(Debug, Clone, Copy, PartialEq, Eq, Structural)]
pub struct EncodedFrameInfo {
    pub width: u32,
    pub height: u32,
    pub profile: EncodedFrameProfile,
    pub frame_type: EncodedFrameType,
    pub quality: u32,
    pub bitrate: u32,
    pub lossless: bool,
    pub instance_num: u32,
}

/// The metadata the shim's encoded-frame record describes.
pub open spec fn encoded_frame_info_of(raw: dai_encoded_frame_info) -> EncodedFrameInfo {
    EncodedFrameInfo {
        width: raw.width,
        height: raw.height,
        profile: EncodedFrameProfile::of_raw(raw.profile),
        frame_type: EncodedFrameType::of_raw(raw.frame_type),
        quality: raw.quality,
        bitrate: raw.bitrate,
        lossless: raw.lossless != 0,
        instance_num: raw.instance_num,
    }
}

/// An encoded frame's metadata is its record's fields, each in its own place:
/// the width is the record's width and the height its height, the profile and
/// frame type are read from the record's values, `lossless` is a non-zero flag.
pub proof fn lemma_encoded_frame_info_fields(raw: dai_encoded_frame_info)
    ensures
        encoded_frame_info_of(raw).width == raw.width,
        encoded_frame_info_of(raw).height == raw.height,
        encoded_frame_info_of(raw).profile == EncodedFrameProfile::of_raw(raw.profile),
        encoded_frame_info_of(raw).frame_type == EncodedFrameType::of_raw(raw.frame_type),
        encoded_frame_info_of(raw).quality == raw.quality,
        encoded_frame_info_of(raw).bitrate == raw.bitrate,
        encoded_frame_info_of(raw).lossless == (raw.lossless != 0),
        encoded_frame_info_of(raw).instance_num == raw.instance_num,
{
}

/// A `dai::EncodedFrame`.
#[derive(Debug)]
pub struct EncodedFrame {
    any: AnyMessage,
    info: EncodedFrameInfo,
}

impl EncodedFrame {
    #[verifier::type_invariant]
    closed spec fn info_is_the_record(&self) -> bool {
        self.any@.detail matches Detail::EncodedFrame(raw) && self.info == encoded_frame_info_of(raw)
    }

    /// The metadata this frame carries: what the shim's record says.
    pub closed spec fn spec_info(&self) -> EncodedFrameInfo {
        self.info
    }

    pub fn info(&self) -> (r: &EncodedFrameInfo)
        ensures
            *r == self.spec_info(),
            self.any_view().detail matches Detail::EncodedFrame(raw) && *r
                == encoded_frame_info_of(raw) && r.width == raw.width && r.height == raw.height
                && r.profile == EncodedFrameProfile::of_raw(raw.profile) && r.frame_type
                == EncodedFrameType::of_raw(raw.frame_type) && r.quality == raw.quality
                && r.bitrate == raw.bitrate && r.lossless == (raw.lossless != 0)
                && r.instance_num == raw.instance_num,
    {
        proof {
            use_type_invariant(self);
        }
        &self.info
    }

    /// The encoded bytes (Annex-B NAL units for H.264/H.265).
    pub fn data(&self) -> (r: &[u8])
        ensures
            r@ == self.any_view().data,
            payload_fits(self.any_view().header.data_len, r@),
    {
        self.any.data()
    }

    /// Whether this is an I-frame.
    pub fn is_keyframe(&self) -> (r: bool)
        ensures
            r == (self.spec_info().frame_type == EncodedFrameType::I),
            self.any_view().detail matches Detail::EncodedFrame(raw) && r == (
            EncodedFrameType::of_raw(raw.frame_type) == EncodedFrameType::I),
    {
        proof {
            use_type_invariant(self);
        }
        self.info.frame_type == EncodedFrameType::I
    }
}

impl Clone for EncodedFrame {
    fn clone(&self) -> (r: EncodedFrame)
        ensures
            r.any_view() == self.any_view(),
            r.spec_info() == self.spec_info(),
    {
        proof {
            use_type_invariant(self);
        }
        EncodedFrame { any: self.any.clone(), info: self.info }
    }
}

impl Sealed for EncodedFrame {}

impl Message for EncodedFrame {
    open spec fn accepts() -> Option<Datatype> {
        Some(Datatype::EncodedFrame)
    }

    closed spec fn any_view(&self) -> MessageView {
        self.any@
    }

    fn accepted_datatype() -> (r: Option<Datatype>) {
        Some(Datatype::EncodedFrame)
    }

    fn from_any(any: AnyMessage) -> (r: Result<Self>) {
        match any.detail() {
            Detail::EncodedFrame(raw) => {
                let info = EncodedFrameInfo {
                    width: raw.width,
                    height: raw.height,
                    profile: EncodedFrameProfile::from_raw(raw.profile),
                    frame_type: EncodedFrameType::from_raw(raw.frame_type),
                    quality: raw.quality,
                    bitrate: raw.bitrate,
                    lossless: raw.lossless != 0,
                    instance_num: raw.instance_num,
                };
                Ok(EncodedFrame { any, info })
            },
            _ => {
                let got = any.datatype();
                Err(DepthaiError::UnexpectedDatatype { expected: Datatype::EncodedFrame, got })
            },
        }
    }

    fn as_any(&self) -> (r: &AnyMessage) {
        &self.any
    }
}

} // verus!
