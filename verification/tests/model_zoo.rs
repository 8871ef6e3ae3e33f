use depthai::{DepthaiError, NNModelDescription};

#[test]
fn model_description_builds_c_strings() {
    let d = NNModelDescription::new("luxonis/yolov6-nano:r2-coco-512x288").with_platform("RVC2");
    assert_eq!(d.model, "luxonis/yolov6-nano:r2-coco-512x288");
    assert_eq!(d.platform.as_deref(), Some("RVC2"));
    assert!(d.snpe_version.is_none());
    let raw = d.to_raw().unwrap();
    assert_eq!(raw.model, b"luxonis/yolov6-nano:r2-coco-512x288\0".to_vec());
    assert_eq!(raw.platform, Some(b"RVC2\0".to_vec()));
    assert_eq!(raw.optimization_level, None);
}

#[test]
fn model_description_reports_the_first_nul_field() {
    let mut d = NNModelDescription::new("ok");
    d.compression_level = Some("x\0y".into());
    d.snpe_version = Some("\0".into());
    match d.to_raw() {
        Err(DepthaiError::Nul { position, bytes }) => {
            assert_eq!(position, 1);
            assert_eq!(bytes, b"x\0y".to_vec());
        }
        other => panic!("expected a NUL error, got {:?}", other),
    }
}
