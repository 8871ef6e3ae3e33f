use std::time::Duration;

use depthai::message::Detail;
use depthai::raw::{dai_buffer_info, dai_encoded_frame_info, dai_img_frame_info};
use depthai::{
    AnyMessage, Datatype, DepthaiError, EncodedFrame, EncodedFrameProfile, EncodedFrameType,
    GateControl, ImgFrame, ImgFrameType, ImuData, Message, MessageGroup, RawTimestamp,
};

fn buffer(datatype: i32, data_len: usize) -> dai_buffer_info {
    dai_buffer_info {
        datatype,
        pad_: 0,
        timestamp_ns: 1_000,
        timestamp_device_ns: -7,
        sequence_num: 42,
        data_len,
    }
}

fn img_info() -> dai_img_frame_info {
    dai_img_frame_info {
        width: 640,
        height: 400,
        stride: 640,
        type_: 30,
        instance_num: 1,
        ..Default::default()
    }
}

#[test]
fn raw_timestamp_math() {
    let t = RawTimestamp { sec: 3, nsec: 7 };
    assert_eq!(t.as_nanos(), 3_000_000_007);
    assert!(!t.is_zero());
    assert!(RawTimestamp::default().is_zero());
    assert_eq!(
        RawTimestamp { sec: -1, nsec: 0 }.as_duration(),
        Duration::ZERO
    );
}

#[test]
fn raw_timestamp_saturates_in_two_steps() {
    assert_eq!(RawTimestamp { sec: i64::MAX, nsec: 0 }.as_nanos(), i64::MAX);
    assert_eq!(RawTimestamp { sec: i64::MIN, nsec: 0 }.as_nanos(), i64::MIN);
    // The product saturates first; the sum then moves off the bound.
    assert_eq!(RawTimestamp { sec: i64::MAX, nsec: -5 }.as_nanos(), i64::MAX - 5);
    assert_eq!(RawTimestamp { sec: 0, nsec: 5 }.as_duration(), Duration::from_nanos(5));
    assert!(!RawTimestamp { sec: 0, nsec: 1 }.is_zero());
}

#[test]
fn img_frame_downcast_reads_its_record() {
    let any = AnyMessage::from_raw(buffer(2, 3), vec![1, 2, 3], Detail::ImgFrame(img_info())).unwrap();
    assert_eq!(any.datatype(), Datatype::ImgFrame);
    assert_eq!(any.header().sequence_num, 42);
    let frame: ImgFrame = any.downcast().unwrap();
    assert_eq!(frame.width(), 640);
    assert_eq!(frame.height(), 400);
    assert_eq!(frame.stride(), 640);
    assert_eq!(frame.img_type(), ImgFrameType::Gray8);
    assert_eq!(frame.instance_num(), 1);
    assert_eq!(frame.info().width, 640);
    assert_eq!(frame.data(), &[1, 2, 3]);
    assert_eq!(frame.timestamp_ns(), 1_000);
    assert_eq!(frame.timestamp(), Duration::from_nanos(1_000));
    assert_eq!(frame.timestamp_device(), Duration::ZERO);
    assert_eq!(frame.sequence_num(), 42);
    assert_eq!(Message::datatype(&frame), Datatype::ImgFrame);
    let copy = frame.clone();
    assert_eq!(Message::data(&copy), &[1, 2, 3]);
}

#[test]
fn downcast_to_the_wrong_type_is_refused() {
    let any = AnyMessage::from_raw(buffer(28, 0), Vec::new(), Detail::Plain).unwrap();
    match any.clone().downcast::<ImgFrame>() {
        Err(DepthaiError::UnexpectedDatatype { expected, got }) => {
            assert_eq!(expected, Datatype::ImgFrame);
            assert_eq!(got, Datatype::MessageGroup);
        }
        other => panic!("expected a datatype error, got {:?}", other.map(|_| ())),
    }
    let group: MessageGroup = any.clone().downcast().unwrap();
    assert_eq!(group.header().datatype, Datatype::MessageGroup);
    let same: AnyMessage = any.downcast().unwrap();
    assert_eq!(same.datatype(), Datatype::MessageGroup);
    assert!(same.downcast::<ImuData>().is_err());
}

#[test]
fn a_record_that_does_not_fit_the_type_is_malformed() {
    let r = AnyMessage::from_raw(buffer(19, 0), Vec::new(), Detail::ImgFrame(img_info()));
    assert!(matches!(r, Err(DepthaiError::Malformed(_))));
    let r = AnyMessage::from_raw(buffer(2, 0), Vec::new(), Detail::Plain);
    assert!(matches!(r, Err(DepthaiError::Malformed(_))));
}

#[test]
fn encoded_frame_keyframe_follows_frame_type() {
    let raw = dai_encoded_frame_info {
        width: 1920,
        height: 1080,
        profile: 1,
        frame_type: 0,
        lossless: 2,
        ..Default::default()
    };
    let any = AnyMessage::from_raw(buffer(3, 2), vec![0, 1], Detail::EncodedFrame(raw)).unwrap();
    let f: EncodedFrame = any.downcast().unwrap();
    assert!(f.is_keyframe());
    assert_eq!(f.info().profile, EncodedFrameProfile::Avc);
    assert!(f.info().lossless);
    assert_eq!(f.data(), &[0, 1]);
    let raw_p = dai_encoded_frame_info { frame_type: 1, ..raw };
    let p: EncodedFrame = AnyMessage::from_raw(buffer(3, 0), Vec::new(), Detail::EncodedFrame(raw_p))
        .unwrap()
        .downcast()
        .unwrap();
    assert!(!p.is_keyframe());
    assert_eq!(p.info().frame_type, EncodedFrameType::P);
}

#[test]
fn gate_control_arguments() {
    assert_eq!(
        GateControl::open(),
        GateControl { open_gate: true, num_messages: -1, fps: -1 }
    );
    assert_eq!(
        GateControl::close(),
        GateControl { open_gate: false, num_messages: -1, fps: -1 }
    );
    assert_eq!(
        GateControl::open_for(10, Some(5)),
        GateControl { open_gate: true, num_messages: 10, fps: 5 }
    );
    assert_eq!(
        GateControl::new(true, Some(u32::MAX), None),
        GateControl { open_gate: true, num_messages: i32::MAX, fps: -1 }
    );
}

#[test]
fn payload_must_match_the_buffer_record() {
    // The counted bytes, or none at all (the shim reported no buffer).
    assert!(AnyMessage::from_raw(buffer(19, 3), vec![1, 2, 3], Detail::Plain).is_ok());
    let empty = AnyMessage::from_raw(buffer(19, 5), vec![], Detail::Plain).unwrap();
    assert!(empty.data().is_empty());
    assert_eq!(empty.header().data_len, 5);
    match AnyMessage::from_raw(buffer(19, 5), vec![1, 2], Detail::Plain) {
        Err(DepthaiError::Malformed(_)) => {}
        other => panic!("expected a malformed message, got {:?}", other),
    }
}

#[test]
fn clones_share_the_payload() {
    let m = AnyMessage::from_raw(buffer(19, 4), vec![9, 8, 7, 6], Detail::Plain).unwrap();
    let c = m.clone();
    assert_eq!(c.data(), m.data());
    assert_eq!(c.data().as_ptr(), m.data().as_ptr());
    let d: ImuData = c.downcast().unwrap();
    assert_eq!(d.data().as_ptr(), m.data().as_ptr());
}

#[test]
fn queue_is_empty_exactly_at_zero() {
    let q: depthai::OutputQueue<ImuData> = depthai::OutputQueue::from_handle(12);
    assert!(q.is_empty(0));
    assert!(!q.is_empty(3));
    assert_eq!(q.handle(), 12);
}
