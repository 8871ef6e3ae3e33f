use depthai::raw::dai_device_info;
use depthai::{
    CalibrationHandler, Device, DeviceBootloader, DeviceInfo, DeviceState, NNArchive, XLinkPlatform,
    XLinkProtocol,
};

#[test]
fn device_info_round_trips_through_pod() {
    let info = DeviceInfo {
        name: "192.168.1.42".into(),
        device_id: "18443010D1C3F00F00".into(),
        state: DeviceState::Bootloader,
        protocol: XLinkProtocol::TcpIp,
        platform: XLinkPlatform::MyriadX,
        status: 0,
    };
    let raw = info.to_raw();
    assert_eq!(DeviceInfo::from_raw(&raw), info);
}

#[test]
fn device_info_truncates_long_names() {
    let info = DeviceInfo {
        name: "x".repeat(200),
        device_id: String::new(),
        state: DeviceState::Any,
        protocol: XLinkProtocol::Any,
        platform: XLinkPlatform::Any,
        status: 0,
    };
    let back = DeviceInfo::from_raw(&info.to_raw());
    assert_eq!(back.name.len(), 63);
}

#[test]
fn device_info_record_layout() {
    let info = DeviceInfo {
        name: "ab".into(),
        device_id: "c".into(),
        state: DeviceState::Booted,
        protocol: XLinkProtocol::UsbVsc,
        platform: XLinkPlatform::Rvc4,
        status: -3,
    };
    let raw = info.to_raw();
    assert_eq!(&raw.name[..3], b"ab\0");
    assert!(raw.name[2..].iter().all(|&b| b == 0));
    assert_eq!(&raw.device_id[..2], b"c\0");
    assert_eq!(raw.state, 1);
    assert_eq!(raw.protocol, 0);
    assert_eq!(raw.platform, 4000);
    assert_eq!(raw.status, -3);
    assert_eq!(raw.reserved_, [0, 0]);
}

#[test]
fn device_info_from_record_passes_unknown_enums() {
    let mut raw = dai_device_info::default();
    raw.name[..4].copy_from_slice(b"oak\0");
    raw.device_id[..3].copy_from_slice(b"id!");
    raw.state = 77;
    raw.protocol = 4;
    raw.platform = 2450;
    let info = DeviceInfo::from_raw(&raw);
    assert_eq!(info.name, "oak");
    assert_eq!(info.device_id, "id!");
    assert_eq!(info.state, DeviceState::Other(77));
    assert_eq!(info.protocol, XLinkProtocol::TcpIp);
    assert_eq!(info.platform, XLinkPlatform::Myriad2);
}

#[test]
fn copy_fixed_cuts_before_the_last_byte() {
    let mut buf = [9u8; 4];
    depthai::device::copy_fixed(&mut buf, "abcdef");
    assert_eq!(buf, [b'a', b'b', b'c', 0]);
    let mut buf = [9u8; 6];
    depthai::device::copy_fixed(&mut buf, "ab");
    assert_eq!(buf, [b'a', b'b', 0, 9, 9, 9]);
}

#[test]
fn handles_are_kept() {
    assert_eq!(Device::from_handle(0xdead).handle(), 0xdead);
    assert_eq!(CalibrationHandler::from_handle(17).handle(), 17);
    assert_eq!(DeviceBootloader::from_handle(18).handle(), 18);
    assert_eq!(NNArchive::from_handle(19).handle(), 19);
}
