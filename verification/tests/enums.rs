use depthai::{
    opt_raw, CameraBoardSocket, Datatype, DeviceState, EncodedFrameType, ImgFrameType, ImuSensor,
    StorageOrder, UsbSpeed, XLinkPlatform, XLinkProtocol,
};

#[test]
fn round_trips_and_passes_unknown_through() {
    assert_eq!(CameraBoardSocket::from_raw(1), CameraBoardSocket::CamB);
    assert_eq!(CameraBoardSocket::CamB.to_raw(), 1);
    assert_eq!(CameraBoardSocket::from_raw(-1), CameraBoardSocket::Auto);
    assert_eq!(
        CameraBoardSocket::from_raw(42),
        CameraBoardSocket::Other(42)
    );
    assert_eq!(CameraBoardSocket::Other(42).to_raw(), 42);
    assert_eq!(ImgFrameType::from_raw(30), ImgFrameType::Gray8);
    assert_eq!(Datatype::from_raw(28), Datatype::MessageGroup);
    assert_eq!(ImuSensor::GyroscopeRaw.to_raw(), 0x15);
    assert_eq!(DeviceState::from_raw(3), DeviceState::Bootloader);
}

#[test]
fn every_raw_value_reads_back_to_itself() {
    for v in -3..5000 {
        assert_eq!(CameraBoardSocket::from_raw(v).to_raw(), v);
        assert_eq!(XLinkPlatform::from_raw(v).to_raw(), v);
        assert_eq!(StorageOrder::from_raw(v).to_raw(), v);
    }
}

#[test]
fn other_with_a_named_value_reads_back_as_the_name() {
    // Other(1) is not canonical: 1 is CamB.
    assert_eq!(
        CameraBoardSocket::from_raw(CameraBoardSocket::Other(1).to_raw()),
        CameraBoardSocket::CamB
    );
    assert_eq!(
        XLinkProtocol::from_raw(XLinkProtocol::TcpIp.to_raw()),
        XLinkProtocol::TcpIp
    );
    assert_eq!(XLinkPlatform::MyriadX.to_raw(), 2480);
    assert_eq!(StorageOrder::Nchw.to_raw(), 0x4321);
    assert_eq!(EncodedFrameType::from_raw(0), EncodedFrameType::I);
    assert_eq!(ImgFrameType::from_raw(33), ImgFrameType::NoneType);
}

#[test]
fn from_impls_agree_with_raw() {
    let v: i32 = UsbSpeed::Super.into();
    assert_eq!(v, 4);
    let s: UsbSpeed = 5.into();
    assert_eq!(s, UsbSpeed::SuperPlus);
    let o: UsbSpeed = 77.into();
    assert_eq!(o, UsbSpeed::Other(77));
}

#[test]
fn optional_enum_uses_the_default_sentinel() {
    assert_eq!(opt_raw::<ImgFrameType>(None), -1);
    assert_eq!(opt_raw(Some(ImgFrameType::Nv12)), 22);
    assert_eq!(opt_raw(Some(UsbSpeed::High)), 3);
}
