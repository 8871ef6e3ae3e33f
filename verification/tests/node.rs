use depthai::node::{opt_size, split_port, Gate, PortEntry, StereoDepth, Sync};
use depthai::{
    Device, DepthaiError, ImgFrame, Message, Node, NodeHandle, NodeType, Output, Pipeline,
};

fn port(group: &str, name: &str, handle: u64) -> PortEntry {
    PortEntry { group: group.into(), name: name.into(), handle }
}

fn stereo_handle() -> NodeHandle {
    let pipeline = Pipeline::from_handle(7, Some(Device::from_handle(3)));
    NodeHandle::new(
        11,
        "StereoDepth".into(),
        pipeline,
        vec![port("", "left", 100), port("", "right", 101), port("", "inputAlignTo", 102)],
        vec![
            port("", "depth", 200),
            port("", "disparity", 201),
            port("", "rectifiedLeft", 202),
            port("", "rectifiedRight", 203),
            port("", "syncedLeft", 204),
            port("", "syncedRight", 205),
            port("", "confidenceMap", 206),
        ],
    )
}

#[test]
fn port_spec_splits_group() {
    assert_eq!(split_port("depth"), ("", "depth"));
    assert_eq!(split_port("inputs/left"), ("inputs", "left"));
}

#[test]
fn port_spec_splits_at_the_first_slash() {
    assert_eq!(split_port("a/b/c"), ("a", "b/c"));
    assert_eq!(split_port("/out"), ("", "out"));
    assert_eq!(split_port(""), ("", ""));
}

#[test]
fn stereo_fixed_ports_come_from_the_table() {
    let stereo = StereoDepth::from_handle(stereo_handle());
    assert_eq!(stereo.left().unwrap().handle(), 100);
    assert_eq!(stereo.right().unwrap().handle(), 101);
    assert_eq!(stereo.input_align_to().unwrap().handle(), 102);
    let depth: Output<ImgFrame> = stereo.depth().unwrap();
    assert_eq!(depth.handle(), 200);
    assert_eq!(stereo.disparity().unwrap().handle(), 201);
    assert_eq!(stereo.rectified_left().unwrap().handle(), 202);
    assert_eq!(stereo.rectified_right().unwrap().handle(), 203);
    assert_eq!(stereo.synced_left().unwrap().handle(), 204);
    assert_eq!(stereo.synced_right().unwrap().handle(), 205);
    assert_eq!(stereo.confidence_map().unwrap().handle(), 206);
    assert_eq!(depth.node().handle(), 11);
    assert_eq!(stereo.pipeline().handle(), 7);
    assert_eq!(stereo.pipeline().device().unwrap().handle(), 3);
    assert_eq!(stereo.post_processing().node().handle().handle(), 11);
}

#[test]
fn missing_fixed_port_names_the_node() {
    let gate = Gate::from_handle(NodeHandle::new(5, "Gate".into(), Pipeline::from_handle(1, None), vec![], vec![]));
    match gate.input_control() {
        Err(DepthaiError::MissingPort { node, kind, name }) => {
            assert_eq!(node, "Gate");
            assert_eq!(kind, "input");
            assert_eq!(name, "inputControl");
        }
        other => panic!("expected a missing port, got {:?}", other),
    }
    match gate.output() {
        Err(DepthaiError::MissingPort { kind, name, .. }) => {
            assert_eq!(kind, "output");
            assert_eq!(name, "output");
        }
        other => panic!("expected a missing port, got {:?}", other),
    }
    assert!(gate.pipeline().device().is_none());
}

#[test]
fn unknown_port_is_none_and_nul_is_an_error() {
    let h = NodeHandle::new(
        9,
        "Sync".into(),
        Pipeline::from_handle(1, None),
        vec![port("inputs", "left", 1), port("inputs", "right", 2)],
        vec![port("", "out", 3)],
    );
    assert!(h.output_by_name("nope").unwrap().is_none());
    assert!(h.input_by_name("nope").unwrap().is_none());
    assert_eq!(h.input_by_name("inputs/left").unwrap().unwrap().handle(), 1);
    assert!(h.input_by_name("left").unwrap().is_none());
    assert_eq!(h.output_by_name("out").unwrap().unwrap().handle(), 3);
    assert_eq!(h.node_type_name(), "Sync");
    assert_eq!(h.input_names(), vec!["inputs/left", "inputs/right"]);
    assert!(h.output_names().iter().any(|n| n.ends_with("/out")));
    match h.input_by_name("in\0puts/left") {
        Err(DepthaiError::Nul { position, .. }) => assert_eq!(position, 2),
        other => panic!("expected a NUL error, got {:?}", other),
    }
}

#[test]
fn input_identity_and_output_cast() {
    let h = stereo_handle();
    let a = h.input_by_name("left").unwrap().unwrap();
    let a2 = h.input_by_name("left").unwrap().unwrap();
    let b = h.input_by_name("right").unwrap().unwrap();
    assert!(a.ptr_eq(&a2));
    assert!(a.ptr_eq(&a));
    assert!(!a.ptr_eq(&b));
    assert_eq!(a.node().handle(), 11);
    let any = h.output_by_name("depth").unwrap().unwrap();
    let typed: Output<ImgFrame> = any.cast();
    assert_eq!(typed.handle(), 200);
    let back = typed.clone().cast::<depthai::AnyMessage>();
    assert_eq!(back.handle(), 200);
    assert_eq!(<ImgFrame as Message>::accepted_datatype(), Some(depthai::Datatype::ImgFrame));
}

#[test]
fn optional_size_uses_the_default_pair() {
    assert_eq!(opt_size(None), (-1, -1));
    assert_eq!(opt_size(Some((640, 400))), (640, 400));
}

#[test]
fn unknown_port_is_none_not_error() {
    // A Sync node as the shim lists it on a host-only pipeline: no device,
    // one output `out` in the default group.
    let sync = Sync::from_handle(NodeHandle::new(
        4,
        "Sync".into(),
        Pipeline::from_handle(2, None),
        vec![],
        vec![port("", "out", 40)],
    ));
    assert!(sync.output_by_name("nope").unwrap().is_none());
    assert!(sync.input_by_name("nope").unwrap().is_none());
    assert_eq!(sync.node_type_name(), "Sync");
    assert!(sync.output_names().iter().any(|n| n.ends_with("/out")));
    assert_eq!(sync.out().unwrap().handle(), 40);
}

#[test]
fn pipeline_create_binds_the_node_to_the_pipeline() {
    let pipeline = Pipeline::from_handle(8, Some(Device::from_handle(2)));
    let sync: Sync = pipeline.create(21, "Sync".into(), vec![port("inputs", "left", 5)], vec![port("", "out", 6)]);
    assert_eq!(sync.handle().handle(), 21);
    assert_eq!(sync.pipeline().handle(), 8);
    assert_eq!(sync.pipeline().device().unwrap().handle(), 2);
    assert_eq!(sync.node_type_name(), "Sync");
    assert_eq!(sync.out().unwrap().handle(), 6);
    assert_eq!(sync.input_by_name("inputs/left").unwrap().unwrap().handle(), 5);
    assert_eq!(sync.input_names(), vec!["inputs/left"]);
}

#[test]
fn every_listed_port_is_found_by_its_label() {
    let h = stereo_handle();
    for label in h.output_names() {
        assert!(h.output_by_name(&label).unwrap().is_some(), "output {label}");
    }
    for label in h.input_names() {
        assert!(h.input_by_name(&label).unwrap().is_some(), "input {label}");
    }
    let grouped = NodeHandle::new(
        1,
        "Sync".into(),
        Pipeline::from_handle(1, None),
        vec![port("inputs", "left", 7), port("inputs", "right", 8)],
        vec![],
    );
    let labels = grouped.input_names();
    assert_eq!(labels, vec!["inputs/left", "inputs/right"]);
    assert_eq!(grouped.input_by_name(&labels[1]).unwrap().unwrap().handle(), 8);
}

#[test]
fn ports_added_later_are_found_through_the_current_table() {
    let created = NodeHandle::new(3, "Sync".into(), Pipeline::from_handle(1, None), vec![], vec![port("", "out", 30)]);
    assert!(created.input_by_name("inputs/left").unwrap().is_none());
    let now = created.with_ports(vec![port("inputs", "left", 31)], vec![port("", "out", 30)]);
    assert_eq!(now.input_by_name("inputs/left").unwrap().unwrap().handle(), 31);
    assert_eq!(now.input_names(), vec!["inputs/left"]);
    assert_eq!(now.handle(), 3);
    assert_eq!(now.node_type_name(), "Sync");
    assert_eq!(now.pipeline().handle(), 1);
    let sync = Sync::from_handle(now);
    assert_eq!(sync.out().unwrap().handle(), 30);
}
