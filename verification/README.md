# depthai

Safe Rust for Luxonis **depthai-core v3** (OAK cameras), in two parts.

- `src/` is the library, verified with Verus: the depthai enums and their
  raw values (with round-trip proofs), the shim's plain records and their
  conversions (device entries, buffer, frame, tensor and model-description
  records), message typing (`AnyMessage` and its checked downcast to
  `ImgFrame`, `EncodedFrame`, `ImuData`, `MessageGroup`, `NnData`,
  `ImgDetections`), node port tables and port lookup by `group/name`, and the
  conversions every shim call goes through (C strings and their NUL errors,
  fixed-size C char arrays, newline-joined lists, nanosecond counts and
  `Duration`s, half-to-single float bits).
- `app/` links depthai-core's C shim: it owns the shim's handles, makes the
  calls, and hands what the shim reports to the library. The values that are
  floating point (IMU readings, calibration, tensor contents, detections,
  frame rates) are read there too.

Shim handles travel through the library as `u64` values; every type that
stands for a depthai-core object (device, pipeline, node, port, queue,
calibration, archive) is identified by one.

`tests/` exercises the library on concrete values.
