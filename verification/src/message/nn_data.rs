//! [`NnData`]: the raw output tensors of a neural network. The tensor
//! records are read through the shim.

use vstd::prelude::*;

use crate::enums::{Datatype, RawEnum, StorageOrder, TensorDataType};
use crate::error::{fixed_string, fixed_string_chars, DepthaiError, Result};
use crate::message::{AnyMessage, Message, MessageView, Sealed};
use crate::raw::dai_tensor_info;
use vstd::std_specs::bits::axiom_u32_leading_zeros;

verus! {

/// A `dai::NNData`: one buffer holding every output layer.
#[derive(Debug)]
pub struct NnData {
    any: AnyMessage,
}

impl Clone for NnData {
    fn clone(&self) -> (r: NnData)
        ensures
            r.any_view() == self.any_view(),
    {
        NnData { any: self.any.clone() }
    }
}

impl Sealed for NnData {}

impl Message for NnData {
    open spec fn accepts() -> Option<Datatype> {
        Some(Datatype::NnData)
    }

    closed spec fn any_view(&self) -> MessageView {
        self.any@
    }

    fn accepted_datatype() -> (r: Option<Datatype>) {
        Some(Datatype::NnData)
    }

    fn from_any(any: AnyMessage) -> (r: Result<Self>) {
        Ok(NnData { any })
    }

    fn as_any(&self) -> (r: &AnyMessage) {
        &self.any
    }
}

/// The product of `dims`: the element count of a tensor of that shape.
pub open spec fn dims_product(dims: Seq<u32>) -> int
    decreases dims.len(),
{
    if dims.len() == 0 {
        1
    } else {
        dims_product(dims.drop_last()) * dims.last()
    }
}

/// Every partial product of `dims`, outermost first, fits in a `usize`.
pub open spec fn dims_product_fits(dims: Seq<u32>) -> bool {
    forall|k: int| 0 <= k <= dims.len() ==> #[trigger] dims_product(dims.take(k)) <= usize::MAX
}

/// The element count of a tensor of shape `dims`.
fn count_elements(dims: &[u32]) -> (n: usize)
    requires
        dims_product_fits(dims@),
    ensures
        n == dims_product(dims@),
{
    let mut n: usize = 1;
    let mut i: usize = 0;
    assert(dims@.take(0) =~= Seq::<u32>::empty());
    while i < dims.len()
        invariant
            i <= dims@.len(),
            dims_product_fits(dims@),
            n == dims_product(dims@.take(i as int)),
        decreases dims@.len() - i,
    {
        let ghost next = dims@.take(i + 1);
        assert(next.drop_last() =~= dims@.take(i as int));
        assert(dims_product(next) <= usize::MAX);
        n = n * (dims[i] as usize);
        i = i + 1;
    }
    assert(dims@.take(i as int) =~= dims@);
    n
}

/// The first `n` items of `s`, or all of them when there are fewer.
pub open spec fn prefix<T>(s: Seq<T>, n: u32) -> Seq<T> {
    s.take(if n < s.len() { n as int } else { s.len() as int })
}

/// The first `n` items of `a` (all of them when there are fewer), copied.
fn copy_prefix(a: &[u32], n: u32) -> (v: Vec<u32>)
    ensures
        v@ == prefix(a@, n),
{
    let end: usize = if (n as usize) < a.len() { n as usize } else { a.len() };
    let mut v: Vec<u32> = Vec::new();
    let mut i: usize = 0;
    while i < end
        invariant
            end <= a@.len(),
            end == (if n < a@.len() { n as int } else { a@.len() as int }),
            i <= end,
            v@ == a@.take(i as int),
        decreases end - i,
    {
        v.push(a[i]);
        assert(a@.take(i as int).push(a@[i as int]) =~= a@.take(i + 1));
        i = i + 1;
    }
    v
}

/// `dai::TensorInfo`: where one layer lives in the [`NnData`] buffer and how
/// to read it. (Its quantisation scale and zero point are floating point and
/// are kept beside it by whoever reads the values.)
#[derive(Clone, Debug, PartialEq, Eq)]
pub struct TensorInfo {
    pub name: String,
    pub datatype: TensorDataType,
    pub order: StorageOrder,
    /// Shape, outermost first (per `order`).
    pub dims: Vec<u32>,
    /// Bytes between consecutive elements along each dim, as reported (often empty).
    pub strides: Vec<u32>,
    /// Byte offset of the first element in the message buffer.
    pub offset: u32,
    /// Whether the quantisation parameters apply.
    pub quantization: bool,
    /// `getDataTypeSize()`: bytes per element.
    pub elem_size: usize,
}

/// One past the last byte of the layer `info` describes: `offset` plus its
/// element count times the element size.
pub open spec fn tensor_end(info: TensorInfo) -> int {
    info.offset + dims_product(info.dims@) * info.elem_size
}

impl TensorInfo {
    /// The layer a shim record describes: the name up to its NUL, the enums by
    /// value, at most the 8 dims and strides the record has room for.
    pub fn from_raw(r: &dai_tensor_info) -> (t: TensorInfo)
        ensures
            t.name@ == fixed_string_chars(r.name@),
            t.datatype == TensorDataType::of_raw(r.datatype),
            t.order == StorageOrder::of_raw(r.order),
            t.dims@ == prefix(r.dims@, r.num_dims),
            t.strides@ == prefix(r.strides@, r.num_strides),
            t.offset == r.offset,
            t.quantization == (r.quantization != 0),
            t.elem_size == r.elem_size,
    {
        TensorInfo {
            name: fixed_string(r.name.as_slice()),
            datatype: TensorDataType::from_raw(r.datatype),
            order: StorageOrder::from_raw(r.order),
            dims: copy_prefix(r.dims.as_slice(), r.num_dims),
            strides: copy_prefix(r.strides.as_slice(), r.num_strides),
            offset: r.offset,
            quantization: r.quantization != 0,
            elem_size: r.elem_size as usize,
        }
    }

    /// The product of `dims`: how many elements the layer holds.
    pub fn num_elements(&self) -> (n: usize)
        requires
            dims_product_fits(self.dims@),
        ensures
            n == dims_product(self.dims@),
    {
        count_elements(self.dims.as_slice())
    }
}

/// The sign bit of an IEEE-754 single given by its bits.
pub open spec fn f32_sign(b: u32) -> u32 {
    b >> 31u32
}

/// The biased exponent field of an IEEE-754 single given by its bits.
pub open spec fn f32_exponent(b: u32) -> u32 {
    (b >> 23u32) & 0xffu32
}

/// The mantissa field of an IEEE-754 single given by its bits.
pub open spec fn f32_mantissa(b: u32) -> u32 {
    b & 0x7f_ffffu32
}

/// `b` is the IEEE-754 single that stands for the same number as the half
/// `h`: the same sign; zero stays zero; a subnormal half `f * 2^-24` becomes a
/// normal single `(2^23 + M) * 2^(E - 150)` of the same value (the top set bit
/// of `f` is bit `E - 103`, and `f` shifted up to bit 23, which cannot carry
/// past it, is `2^23 + M`); infinities and
/// NaNs keep their payload; a normal half is rebiased (exponent bias 15 to 127)
/// with its fraction widened.
pub open spec fn is_single_of_half(h: u16, b: u32) -> bool {
    let s = (h as u32) >> 15u32;
    let e = ((h as u32) >> 10u32) & 0x1fu32;
    let f = (h as u32) & 0x3ffu32;
    let big_e = f32_exponent(b);
    let m = f32_mantissa(b);
    &&& f32_sign(b) == s
    &&& if e == 0 && f == 0 {
        big_e == 0 && m == 0
    } else if e == 0 {
        &&& 103 <= big_e <= 112
        &&& f >> ((big_e - 103) as u32) == 1
        &&& f << ((126 - big_e) as u32) == 0x80_0000u32 + m
    } else if e == 31 {
        big_e == 255 && m == f << 13u32
    } else {
        big_e == e + 112 && m == f << 13u32
    }
}

/// The half-to-single relation pins one single per half: two singles that
/// both stand for `h` are the same bits.
pub proof fn lemma_single_of_half_unique(h: u16, b1: u32, b2: u32)
    requires
        is_single_of_half(h, b1),
        is_single_of_half(h, b2),
    ensures
        b1 == b2,
{
    assert(is_single_of_half(h, b1) && is_single_of_half(h, b2) ==> b1 == b2) by (bit_vector);
}

/// Flipping the sign of a half flips exactly the sign bit of its single.
pub proof fn lemma_single_of_half_sign(h: u16, b: u32)
    requires
        is_single_of_half(h, b),
    ensures
        is_single_of_half(h ^ 0x8000u16, b ^ 0x8000_0000u32),
{
    assert(is_single_of_half(h, b) ==> is_single_of_half(h ^ 0x8000u16, b ^ 0x8000_0000u32))
        by (bit_vector);
}

/// The text `format!("layer {:?} spans {start}..{end} of a {len}-byte buffer", name)`
/// makes.
pub uninterp spec fn layer_span_message(name: Seq<char>, start: usize, end: usize, len: usize) -> Seq<char>;

/// `format!` of the message a layer that runs past its buffer is refused
/// with: the layer's name quoted as `{:?}` quotes a string, its byte span and
/// the buffer's length. The text is a function of these four values; which
/// characters make it up is not stated.
#[verifier::external_body]
fn layer_span(name: &str, start: usize, end: usize, len: usize) -> (s: String)
    ensures
        s@ == layer_span_message(name@, start, end, len),
{
    format!("layer {:?} spans {start}..{end} of a {len}-byte buffer", name)
}

impl NnData {
    /// The bytes of `info`'s layer: its element count times its element size,
    /// from `offset`, as stored. Refused as [`DepthaiError::Malformed`] when
    /// they run past the end of the message buffer, with a message that names
    /// the layer, its span and the buffer's length.
    pub fn tensor_bytes(&self, info: &TensorInfo) -> (r: Result<&[u8]>)
        requires
            dims_product_fits(info.dims@),
            tensor_end(*info) <= usize::MAX,
        ensures
            r is Ok <==> tensor_end(*info) <= self.any_view().data.len(),
            r matches Ok(b) ==> b@ == self.any_view().data.subrange(
                info.offset as int,
                tensor_end(*info),
            ),
            r matches Err(e) ==> e matches DepthaiError::Malformed(msg) && msg@ == layer_span_message(
                info.name@,
                info.offset as usize,
                tensor_end(*info) as usize,
                self.any_view().data.len() as usize,
            ),
    {
        let n = info.num_elements();
        let size = info.elem_size;
        assert(n * size <= usize::MAX) by (nonlinear_arith)
            requires
                info.offset + n * size <= usize::MAX,
                info.offset >= 0,
        ;
        let start = info.offset as usize;
        let end = start + n * size;
        let data = self.any.data();
        if end <= data.len() {
            Ok(&data[start..end])
        } else {
            Err(DepthaiError::Malformed(layer_span(info.name.as_str(), start, end, data.len())))
        }
    }

    /// `NNData::fp16_to_fp32`, on the bits: the IEEE-754 single (as `f32` bits)
    /// that stands for the half `h`.
    pub fn fp16_to_fp32_bits(h: u16) -> (b: u32)
        ensures
            is_single_of_half(h, b),
    {
        let hw = h as u32;
        let sign: u32 = (hw & 0x8000) << 16u32;
        let exp: u32 = (hw >> 10u32) & 0x1f;
        let frac: u32 = hw & 0x3ff;
        assert(frac < 0x400 && exp < 32) by (bit_vector)
            requires
                frac == hw & 0x3ff,
                exp == (hw >> 10u32) & 0x1f,
        ;
        assert(sign == 0 || sign == 0x8000_0000u32) by (bit_vector)
            requires
                sign == (hw & 0x8000) << 16u32,
        ;
        assert((sign >> 31u32) == (hw >> 15u32)) by (bit_vector)
            requires
                sign == (hw & 0x8000) << 16u32,
                hw < 0x10000,
        ;
        if exp == 0 && frac == 0 {
            assert(f32_exponent(sign) == 0 && f32_mantissa(sign) == 0) by (bit_vector)
                requires
                    sign == 0 || sign == 0x8000_0000u32,
            ;
            sign
        } else if exp == 0 {
            let lz = frac.leading_zeros();
            proof {
                axiom_u32_leading_zeros(frac);
                assert(lz >= 22 && lz <= 31) by (bit_vector)
                    requires
                        frac < 0x400,
                        frac != 0,
                        lz < 32,
                        (frac >> ((31 - lz) as u32)) & 1u32 != 0u32,
                ;
            }
            let shift: u32 = lz - 21;
            let m: u32 = (frac << shift) & 0x3ff;
            assert(m < 0x400) by (bit_vector)
                requires
                    m == (frac << shift) & 0x3ff,
            ;
            let big_e: u32 = 113 - shift;
            let b = sign | (big_e << 23u32) | (m << 13u32);
            assert(f32_sign(b) == sign >> 31u32 && f32_exponent(b) == big_e && f32_mantissa(b) == m
                << 13u32) by (bit_vector)
                requires
                    sign == 0 || sign == 0x8000_0000u32,
                    big_e < 256,
                    m < 0x400,
                    b == sign | (big_e << 23u32) | (m << 13u32),
            ;
            assert(frac >> ((big_e - 103) as u32) == 1) by (bit_vector)
                requires
                    frac < 0x400,
                    22 <= lz <= 31,
                    frac >> ((32 - lz) as u32) == 0,
                    (frac >> ((31 - lz) as u32)) & 1u32 != 0u32,
                    shift == lz - 21,
                    big_e == 113 - shift,
            ;
            assert(frac << ((126 - big_e) as u32) == 0x80_0000u32 + (m << 13u32)) by (bit_vector)
                requires
                    frac < 0x400,
                    22 <= lz <= 31,
                    frac >> ((32 - lz) as u32) == 0,
                    (frac >> ((31 - lz) as u32)) & 1u32 != 0u32,
                    shift == lz - 21,
                    big_e == 113 - shift,
                    m == (frac << shift) & 0x3ff,
            ;
            b
        } else if exp == 31 {
            let b = sign | 0x7f80_0000 | (frac << 13u32);
            assert(f32_sign(b) == sign >> 31u32 && f32_exponent(b) == 255 && f32_mantissa(b) == frac
                << 13u32) by (bit_vector)
                requires
                    sign == 0 || sign == 0x8000_0000u32,
                    frac < 0x400,
                    b == sign | 0x7f80_0000 | (frac << 13u32),
            ;
            b
        } else {
            let big_e: u32 = exp + 112;
            let b = sign | (big_e << 23u32) | (frac << 13u32);
            assert(f32_sign(b) == sign >> 31u32 && f32_exponent(b) == big_e && f32_mantissa(b) == frac
                << 13u32) by (bit_vector)
                requires
                    sign == 0 || sign == 0x8000_0000u32,
                    big_e < 256,
                    frac < 0x400,
                    b == sign | (big_e << 23u32) | (frac << 13u32),
            ;
            b
        }
    }
}

} // verus!
