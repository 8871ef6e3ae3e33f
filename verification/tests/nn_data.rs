use depthai::message::Detail;
use depthai::raw::{dai_buffer_info, dai_tensor_info};
use depthai::{AnyMessage, DepthaiError, NnData, StorageOrder, TensorDataType, TensorInfo};

fn f(h: u16) -> f32 {
    f32::from_bits(NnData::fp16_to_fp32_bits(h))
}

#[test]
fn f16_conversion() {
    assert_eq!(f(0x3c00), 1.0);
    assert_eq!(f(0xc000), -2.0);
    assert_eq!(f(0x3800), 0.5);
    assert_eq!(f(0x0000), 0.0);
    assert_eq!(f(0x0001), 5.960_464_5e-8);
    assert_eq!(f(0x03ff), 6.097_555e-5);
    assert_eq!(f(0x7bff), 65504.0);
    assert!(f(0x7c00).is_infinite());
    assert!(f(0x7e00).is_nan());
}

#[test]
fn f16_bits_exact() {
    assert_eq!(NnData::fp16_to_fp32_bits(0x8000), 0x8000_0000);
    assert_eq!(NnData::fp16_to_fp32_bits(0x0200), 0x3800_0000);
    assert_eq!(NnData::fp16_to_fp32_bits(0xfc00), 0xff80_0000);
    assert_eq!(NnData::fp16_to_fp32_bits(0x3c00), 0x3f80_0000);
}

#[test]
fn f16_every_value_matches_its_real_number() {
    for h in 0..=u16::MAX {
        let exp = (h >> 10) & 0x1f;
        let frac = (h & 0x3ff) as f64;
        let sign = if h & 0x8000 != 0 { -1.0 } else { 1.0 };
        let v = f(h) as f64;
        if exp == 31 {
            assert!(v.is_nan() || v.is_infinite());
        } else if exp == 0 {
            assert_eq!(v, sign * frac * 2f64.powi(-24));
        } else {
            assert_eq!(v, sign * (1.0 + frac / 1024.0) * 2f64.powi(exp as i32 - 15));
        }
    }
}

fn tensor_record(name: &[u8], num_dims: u32, offset: u32, elem_size: u32) -> dai_tensor_info {
    let mut r = dai_tensor_info {
        name: [0; 64],
        datatype: 3,
        order: 0x4321,
        num_dims,
        dims: [1, 2, 3, 9, 9, 9, 9, 9],
        num_strides: 0,
        strides: [0; 8],
        offset,
        quantization: 1,
        elem_size,
    };
    r.name[..name.len()].copy_from_slice(name);
    r
}

fn nn_message(payload: Vec<u8>) -> NnData {
    let info = dai_buffer_info {
        datatype: 6,
        pad_: 0,
        timestamp_ns: 0,
        timestamp_device_ns: 0,
        sequence_num: 1,
        data_len: payload.len(),
    };
    AnyMessage::from_raw(info, payload, Detail::Plain).unwrap().downcast().unwrap()
}

#[test]
fn tensor_record_reads_the_listed_dims() {
    let t = TensorInfo::from_raw(&tensor_record(b"output0", 3, 4, 1));
    assert_eq!(t.name, "output0");
    assert_eq!(t.datatype, TensorDataType::Fp32);
    assert_eq!(t.order, StorageOrder::Nchw);
    assert_eq!(t.dims, vec![1, 2, 3]);
    assert!(t.strides.is_empty());
    assert!(t.quantization);
    assert_eq!(t.num_elements(), 6);
    // A count past the record's room keeps all 8 dims.
    let all = TensorInfo::from_raw(&tensor_record(b"x", 40, 0, 1));
    assert_eq!(all.dims.len(), 8);
    assert_eq!(TensorInfo::from_raw(&tensor_record(b"", 0, 0, 1)).num_elements(), 1);
}

#[test]
fn tensor_bytes_are_the_layer_span() {
    let nn = nn_message((0u8..16).collect());
    let t = TensorInfo::from_raw(&tensor_record(b"l", 3, 4, 2));
    // 6 elements of 2 bytes from offset 4.
    assert_eq!(nn.tensor_bytes(&t).unwrap(), &[4, 5, 6, 7, 8, 9, 10, 11, 12, 13, 14, 15]);
    let past = TensorInfo::from_raw(&tensor_record(b"l", 3, 5, 2));
    match nn.tensor_bytes(&past) {
        Err(DepthaiError::Malformed(msg)) => {
            assert_eq!(msg, "layer \"l\" spans 5..17 of a 16-byte buffer")
        }
        other => panic!("expected a malformed layer, got {:?}", other),
    }
}

#[test]
fn f16_subnormals_keep_every_bit() {
    // 513 * 2^-24 = 2^-15 * (1 + 2^-9).
    assert_eq!(NnData::fp16_to_fp32_bits(0x0201), 0x3800_4000);
    assert_eq!(NnData::fp16_to_fp32_bits(0x8201), 0xb800_4000);
    assert_eq!(f(0x0201) as f64, 513.0 * 2f64.powi(-24));
    for h in 0..=u16::MAX {
        assert_eq!(NnData::fp16_to_fp32_bits(h ^ 0x8000), NnData::fp16_to_fp32_bits(h) ^ 0x8000_0000);
    }
}
