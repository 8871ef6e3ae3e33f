//! [`Device`]: a connection to one OAK, and [`DeviceInfo`], one entry of the
//! device enumeration, with its conversion to and from the shim's record.

use vstd::prelude::*;
use vstd::string::StringSliceAdditionalSpecFns;
use vstd::utf8::{decode_utf8, encode_utf8, valid_utf8};

use crate::enums::{DeviceState, RawEnum, XLinkPlatform, XLinkProtocol};
use crate::error::{fixed_string, fixed_string_chars, lemma_nul_end_at, nul_free};
use crate::raw::dai_device_info;

verus! {

broadcast use vstd::utf8::encode_utf8_valid_utf8, vstd::utf8::encode_utf8_decode_utf8;

/// A connected OAK device, identified by the shim handle of its connection.
/// Cloning refers to the same connection (like copying a
/// `std::shared_ptr<dai::Device>` in C++).
#[derive(Clone, Copy, Debug, PartialEq, Eq, Structural)]
pub struct Device {
    handle: u64,
}

impl Device {
    /// The handle this device was made from.
    pub closed spec fn id(&self) -> u64 {
        self.handle
    }

    /// The device whose connection the shim handle `handle` is.
    pub fn from_handle(handle: u64) -> (d: Device)
        ensures
            d.id() == handle,
    {
        Device { handle }
    }

    /// The shim handle of this connection.
    pub fn handle(&self) -> (h: u64)
        ensures
            h == self.id(),
    {
        self.handle
    }
}

/// The bytes `copy_fixed` leaves in a zeroed array of `len` bytes: the first
/// `min(s.len(), len - 1)` bytes of `s`, then zeros.
pub open spec fn fixed_bytes(s: Seq<u8>, len: nat) -> Seq<u8> {
    let n = if s.len() < len - 1 { s.len() as int } else { len - 1 };
    s.take(n) + Seq::new((len - n) as nat, |i: int| 0u8)
}

/// Copy as much of `s` as fits into `dst`, leaving room for a NUL after it.
pub fn copy_fixed(dst: &mut [u8], s: &str)
    requires
        old(dst)@.len() >= 1,
    ensures
        final(dst)@.len() == old(dst)@.len(),
        ({
            let b = s.spec_bytes();
            let n = if b.len() < old(dst)@.len() - 1 { b.len() as int } else { old(dst)@.len() - 1 };
            final(dst)@ == b.take(n) + seq![0u8] + old(dst)@.skip(n + 1)
        }),
{
    let b = s.as_bytes();
    let n: usize = if b.len() < dst.len() - 1 { b.len() } else { dst.len() - 1 };
    let ghost orig = dst@;
    let mut i: usize = 0;
    while i < n
        invariant
            b@ == s.spec_bytes(),
            n < dst@.len(),
            n <= b@.len(),
            i <= n,
            dst@.len() == orig.len(),
            dst@ == b@.take(i as int) + orig.skip(i as int),
        decreases n - i,
    {
        dst[i] = b[i];
        assert(dst@ =~= b@.take(i + 1) + orig.skip(i + 1));
        i = i + 1;
    }
    dst[n] = 0u8;
    assert(dst@ =~= b@.take(n as int) + seq![0u8] + orig.skip(n + 1));
}

/// One entry of the device enumeration.
#[derive(Debug, Clone, PartialEq, Eq)]
pub struct DeviceInfo {
    /// IP address (PoE), USB path, or name.
    pub name: String,
    /// MxId.
    pub device_id: String,
    pub state: DeviceState,
    pub protocol: XLinkProtocol,
    pub platform: XLinkPlatform,
    /// `XLinkError_t`, raw (0 = success).
    pub status: i32,
}

impl DeviceInfo {
    /// The entry a shim record describes: the fixed strings up to their NUL, the
    /// enums by value (unknown values pass through).
    pub fn from_raw(r: &dai_device_info) -> (info: DeviceInfo)
        ensures
            info.name@ == fixed_string_chars(r.name@),
            info.device_id@ == fixed_string_chars(r.device_id@),
            info.state == DeviceState::of_raw(r.state),
            info.protocol == XLinkProtocol::of_raw(r.protocol),
            info.platform == XLinkPlatform::of_raw(r.platform),
            info.status == r.status,
    {
        DeviceInfo {
            name: fixed_string(r.name.as_slice()),
            device_id: fixed_string(r.device_id.as_slice()),
            state: DeviceState::from_raw(r.state),
            protocol: XLinkProtocol::from_raw(r.protocol),
            platform: XLinkPlatform::from_raw(r.platform),
            status: r.status,
        }
    }

    /// The shim record for this entry: each string's UTF-8 bytes, cut to 63
    /// so a NUL fits, in a zeroed 64-byte array; the enums as raw values.
    pub fn to_raw(&self) -> (r: dai_device_info)
        ensures
            r.name@ == fixed_bytes(encode_utf8(self.name@), 64),
            r.device_id@ == fixed_bytes(encode_utf8(self.device_id@), 64),
            r.state == self.state.raw_of(),
            r.protocol == self.protocol.raw_of(),
            r.platform == self.platform.raw_of(),
            r.status == self.status,
            r.reserved_@ == seq![0i32, 0i32],
    {
        let mut r = dai_device_info::default();
        copy_fixed(&mut r.name, self.name.as_str());
        copy_fixed(&mut r.device_id, self.device_id.as_str());
        r.state = self.state.to_raw();
        r.protocol = self.protocol.to_raw();
        r.platform = self.platform.to_raw();
        r.status = self.status;
        r
    }
}

/// A string survives the trip into a 64-byte C char array and back when its
/// UTF-8 encoding fits before the NUL (at most 63 bytes) and holds no NUL.
pub proof fn lemma_fixed_string_round_trip(s: Seq<char>)
    requires
        encode_utf8(s).len() <= 63,
        nul_free(encode_utf8(s)),
    ensures
        fixed_string_chars(fixed_bytes(encode_utf8(s), 64)) == s,
{
    let b = encode_utf8(s);
    let fb = fixed_bytes(b, 64);
    assert(fb.take(b.len() as int) =~= b);
    lemma_nul_end_at(fb, b.len() as int);
}

/// A string too long for a 64-byte C char array comes back cut to its first
/// 63 bytes, when those hold no NUL and end on a character boundary.
pub proof fn lemma_fixed_string_truncates(s: Seq<char>)
    requires
        encode_utf8(s).len() > 63,
        nul_free(encode_utf8(s).take(63)),
        valid_utf8(encode_utf8(s).take(63)),
    ensures
        fixed_string_chars(fixed_bytes(encode_utf8(s), 64)) == decode_utf8(encode_utf8(s).take(63)),
{
    let b = encode_utf8(s);
    let fb = fixed_bytes(b, 64);
    assert(fb.take(63) =~= b.take(63));
    lemma_nul_end_at(fb, 63);
}

/// A device entry survives the trip through the shim's record: `from_raw`
/// of `to_raw` gives the same entry when its strings fit (at most 63 UTF-8
/// bytes, no NUL) and its enums are canonical.
pub proof fn lemma_device_info_round_trip(info: DeviceInfo)
    requires
        encode_utf8(info.name@).len() <= 63,
        nul_free(encode_utf8(info.name@)),
        encode_utf8(info.device_id@).len() <= 63,
        nul_free(encode_utf8(info.device_id@)),
        info.state.is_canonical(),
        info.protocol.is_canonical(),
        info.platform.is_canonical(),
    ensures
        fixed_string_chars(fixed_bytes(encode_utf8(info.name@), 64)) == info.name@,
        fixed_string_chars(fixed_bytes(encode_utf8(info.device_id@), 64)) == info.device_id@,
        DeviceState::of_raw(info.state.raw_of()) == info.state,
        XLinkProtocol::of_raw(info.protocol.raw_of()) == info.protocol,
        XLinkPlatform::of_raw(info.platform.raw_of()) == info.platform,
{
    lemma_fixed_string_round_trip(info.name@);
    lemma_fixed_string_round_trip(info.device_id@);
    DeviceState::lemma_value_round_trip(info.state);
    XLinkProtocol::lemma_value_round_trip(info.protocol);
    XLinkPlatform::lemma_value_round_trip(info.platform);
}

} // verus!
