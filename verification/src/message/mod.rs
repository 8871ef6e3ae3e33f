//! Messages that flow out of a pipeline: [`AnyMessage`] (a message of any type
//! with the [`MessageHeader`] every message has), the [`Message`] trait that
//! types a queue, and the typed messages.
//!
//! A message is what the shim reported about one `dai::ADatatype` when it was
//! taken off its queue: the header, the payload bytes, and for the types whose
//! typed view needs more (frames), the type-specific record. It is immutable
//! once made.

mod encoded_frame;
mod gate_control;
mod img_detections;
mod img_frame;
mod imu_data;
mod message_group;
mod nn_data;
mod sealed;
pub use encoded_frame::{
    encoded_frame_info_of, lemma_encoded_frame_info_fields, EncodedFrame, EncodedFrameInfo,
};
pub use gate_control::{count_arg, GateControl};
pub use img_detections::ImgDetections;
pub use img_frame::{img_frame_info_of, lemma_img_frame_info_fields, ImgFrame, ImgFrameInfo};
pub use imu_data::{lemma_nanos_exact, saturate_i64, ImuData, RawTimestamp};
pub use message_group::MessageGroup;
pub use nn_data::{
    dims_product, dims_product_fits, f32_exponent, f32_mantissa, f32_sign, is_single_of_half,
    lemma_single_of_half_sign, lemma_single_of_half_unique, prefix, tensor_end, NnData,
    TensorInfo,
};
pub use sealed::Sealed;

use std::sync::Arc;
use std::time::Duration;

use vstd::prelude::*;

use crate::enums::{Datatype, RawEnum};
use crate::error::{duration_from_ns, duration_nanos, duration_nanos_of_ns, DepthaiError, Result};
use crate::raw::{dai_buffer_info, dai_encoded_frame_info, dai_img_frame_info};

verus! {

/// The `dai::ADatatype` / `dai::Buffer` fields every message carries, read once
/// when the message is taken off its queue.
#[derive(Debug, Clone, Copy, PartialEq, Eq, Structural)]
pub struct MessageHeader {
    pub datatype: Datatype,
    /// `getTimestamp()`: host `steady_clock` capture time, ns since that clock's
    /// epoch.
    pub timestamp_ns: i64,
    /// `getTimestampDevice()`: the device's own clock, ns since its boot.
    pub timestamp_device_ns: i64,
    pub sequence_num: i64,
    /// `getData().size()`.
    pub data_len: usize,
}

/// The header the shim's buffer record describes.
pub open spec fn header_of(info: dai_buffer_info) -> MessageHeader {
    MessageHeader {
        datatype: Datatype::of_raw(info.datatype),
        timestamp_ns: info.timestamp_ns,
        timestamp_device_ns: info.timestamp_device_ns,
        sequence_num: info.sequence_num,
        data_len: info.data_len,
    }
}

/// The type-specific record the shim reports for a frame message, read when
/// the message is taken off its queue (`Plain` for every other type).
#[derive(Debug, Clone, Copy)]
pub enum Detail {
    Plain,
    ImgFrame(dai_img_frame_info),
    EncodedFrame(dai_encoded_frame_info),
}

/// A detail record of the kind a message of type `dt` carries.
pub open spec fn detail_fits(dt: Datatype, detail: Detail) -> bool {
    match detail {
        Detail::ImgFrame(_) => dt == Datatype::ImgFrame,
        Detail::EncodedFrame(_) => dt == Datatype::EncodedFrame,
        Detail::Plain => dt != Datatype::ImgFrame && dt != Datatype::EncodedFrame,
    }
}

/// The contents of a message.
pub ghost struct MessageView {
    pub header: MessageHeader,
    pub data: Seq<u8>,
    pub detail: Detail,
}

/// The payload fits the header: it holds the `data_len` bytes the header
/// counts, or nothing when the shim reported no buffer.
pub open spec fn payload_fits(data_len: usize, data: Seq<u8>) -> bool {
    data.len() == data_len || data.len() == 0
}

/// A message of any type: its [`MessageHeader`], its payload bytes and the
/// record its typed view reads. The untyped form for queues whose type is not
/// fixed; downcast with [`downcast`](Self::downcast). Clones share one
/// payload: cloning bumps a reference count and copies no bytes.
#[derive(Debug)]
pub struct AnyMessage {
    header: MessageHeader,
    data: Arc<Vec<u8>>,
    detail: Detail,
}

impl View for AnyMessage {
    type V = MessageView;

    closed spec fn view(&self) -> MessageView {
        MessageView { header: self.header, data: (*self.data)@, detail: self.detail }
    }
}

impl AnyMessage {
    #[verifier::type_invariant]
    closed spec fn detail_matches_type(&self) -> bool {
        &&& detail_fits(self.header.datatype, self.detail)
        &&& payload_fits(self.header.data_len, (*self.data)@)
    }

    /// A message from what the shim reported about it: the buffer record, the
    /// payload bytes and, for frame types, the frame record. Refused as
    /// [`DepthaiError::Malformed`] when the record is not the one the message's
    /// datatype carries, or when the payload is neither the `data_len` bytes
    /// the record counts nor empty.
    pub fn from_raw(info: dai_buffer_info, data: Vec<u8>, detail: Detail) -> (r: Result<AnyMessage>)
        ensures
            r is Ok <==> detail_fits(header_of(info).datatype, detail) && payload_fits(
                info.data_len,
                data@,
            ),
            r matches Ok(m) ==> m@ == (MessageView { header: header_of(info), data: data@, detail }),
            r matches Err(e) ==> e is Malformed,
    {
        let header = MessageHeader {
            datatype: Datatype::from_raw(info.datatype),
            timestamp_ns: info.timestamp_ns,
            timestamp_device_ns: info.timestamp_device_ns,
            sequence_num: info.sequence_num,
            data_len: info.data_len,
        };
        let fits = match detail {
            Detail::ImgFrame(_) => header.datatype == Datatype::ImgFrame,
            Detail::EncodedFrame(_) => header.datatype == Datatype::EncodedFrame,
            Detail::Plain => header.datatype != Datatype::ImgFrame && header.datatype
                != Datatype::EncodedFrame,
        };
        if !fits {
            Err(DepthaiError::Malformed("frame record does not match the message type".to_string()))
        } else if data.len() != info.data_len && data.len() != 0 {
            Err(DepthaiError::Malformed("payload length does not match the buffer record".to_string()))
        } else {
            Ok(AnyMessage { header, data: Arc::new(data), detail })
        }
    }

    pub fn header(&self) -> (r: &MessageHeader)
        ensures
            *r == self@.header,
    {
        &self.header
    }

    pub fn datatype(&self) -> (r: Datatype)
        ensures
            r == self@.header.datatype,
    {
        self.header.datatype
    }

    /// The payload bytes (`dai::Buffer::getData()`).
    pub fn data(&self) -> (r: &[u8])
        ensures
            r@ == self@.data,
            payload_fits(self@.header.data_len, r@),
    {
        proof {
            use_type_invariant(self);
        }
        self.data.as_slice()
    }

    /// The frame record this message carries.
    pub fn detail(&self) -> (r: Detail)
        ensures
            r == self@.detail,
            detail_fits(self@.header.datatype, r),
    {
        proof {
            use_type_invariant(self);
        }
        self.detail
    }

    /// View this message as `M`, checking the datatype: a message whose type is
    /// not the one `M` accepts is refused as
    /// [`DepthaiError::UnexpectedDatatype`].
    pub fn downcast<M: Message>(self) -> (r: Result<M>)
        ensures
            match M::accepts() {
                Some(expected) if expected != self@.header.datatype => r
                    == Err::<M, DepthaiError>(
                    DepthaiError::UnexpectedDatatype { expected, got: self@.header.datatype },
                ),
                _ => r is Ok && r->Ok_0.any_view() == self@,
            },
    {
        proof {
            use_type_invariant(&self);
        }
        match M::accepted_datatype() {
            Some(expected) => {
                let got = self.datatype();
                if got != expected {
                    return Err(DepthaiError::UnexpectedDatatype { expected, got });
                }
            },
            None => {},
        }
        M::from_any(self)
    }
}

impl Clone for AnyMessage {
    fn clone(&self) -> (r: AnyMessage)
        ensures
            r@ == self@,
    {
        proof {
            use_type_invariant(self);
        }
        AnyMessage { header: self.header, data: Arc::clone(&self.data), detail: self.detail }
    }
}

/// A message type a queue or group can be typed as. Implemented by
/// [`ImgFrame`], [`EncodedFrame`], [`ImuData`], [`MessageGroup`], [`NnData`],
/// [`ImgDetections`] and [`AnyMessage`]; sealed.
pub trait Message: Sealed + Sized {
    /// The datatype this type accepts (`None` = any).
    spec fn accepts() -> Option<Datatype>;

    /// The untyped message a value of this type views.
    spec fn any_view(&self) -> MessageView;

    /// The datatype this type accepts (`None` = any).
    fn accepted_datatype() -> (r: Option<Datatype>)
        ensures
            r == Self::accepts(),
    ;

    /// Wrap a message whose datatype was verified against
    /// [`accepted_datatype`](Self::accepted_datatype).
    fn from_any(msg: AnyMessage) -> (r: Result<Self>)
        requires
            Self::accepts() matches Some(dt) ==> msg@.header.datatype == dt,
            detail_fits(msg@.header.datatype, msg@.detail),
        ensures
            r is Ok,
            r matches Ok(m) ==> m.any_view() == msg@,
    ;

    /// The untyped message.
    fn as_any(&self) -> (r: &AnyMessage)
        ensures
            r@ == self.any_view(),
    ;

    fn header(&self) -> (r: &MessageHeader)
        ensures
            *r == self.any_view().header,
    {
        self.as_any().header()
    }

    fn datatype(&self) -> (r: Datatype)
        ensures
            r == self.any_view().header.datatype,
    {
        self.as_any().datatype()
    }

    /// The payload bytes.
    fn data(&self) -> (r: &[u8])
        ensures
            r@ == self.any_view().data,
            payload_fits(self.any_view().header.data_len, r@),
    {
        self.as_any().data()
    }

    /// Capture time on the host `steady_clock` (raw, ns).
    fn timestamp_ns(&self) -> (r: i64)
        ensures
            r == self.any_view().header.timestamp_ns,
    {
        self.as_any().header().timestamp_ns
    }

    /// Capture time on the host `steady_clock` (a negative count reads as zero).
    fn timestamp(&self) -> (r: Duration)
        ensures
            duration_nanos(r) == duration_nanos_of_ns(self.any_view().header.timestamp_ns),
    {
        duration_from_ns(self.as_any().header().timestamp_ns)
    }

    /// Capture time on the device clock (a negative count reads as zero).
    fn timestamp_device(&self) -> (r: Duration)
        ensures
            duration_nanos(r) == duration_nanos_of_ns(self.any_view().header.timestamp_device_ns),
    {
        duration_from_ns(self.as_any().header().timestamp_device_ns)
    }

    fn sequence_num(&self) -> (r: i64)
        ensures
            r == self.any_view().header.sequence_num,
    {
        self.as_any().header().sequence_num
    }
}

impl Sealed for AnyMessage {}

impl Message for AnyMessage {
    open spec fn accepts() -> Option<Datatype> {
        None
    }

    open spec fn any_view(&self) -> MessageView {
        self@
    }

    fn accepted_datatype() -> (r: Option<Datatype>) {
        None
    }

    fn from_any(msg: AnyMessage) -> (r: Result<Self>) {
        Ok(msg)
    }

    fn as_any(&self) -> (r: &AnyMessage) {
        self
    }
}

} // verus!
