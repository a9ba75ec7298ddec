//! Frame header inspection and the frame-length resolver.
//!
//! A netlink frame starts with a 16-byte header whose first four bytes hold
//! the declared total frame length, in the host's byte order (little-endian
//! on the targets this library supports, which is also the order the
//! `netlink-packet-core` accessors use).  The resolver decides how many of
//! the buffered bytes actually belong to the next frame, tolerating the
//! audit subsystem's too-small declared lengths.

use vstd::prelude::*;

use bytes::BytesMut;

use crate::buffer::{buf_bytes, buf_get, buf_len, buf_set};

verus! {

/// Number of bytes in a netlink header.
pub const HEADER_LEN: usize = 16;

/// Empirical tolerance for the truncation workaround: when the buffer holds
/// at most this many bytes more than the header declares, the declared
/// length is treated as unreliable and the frame is taken to be the whole
/// remaining buffer.  The value is an empirically chosen bound on the
/// header-or-padding shortfall seen in kernel audit frames, not an exact
/// correction.
pub const MAX_TRUNCATION_SLACK: usize = 16;

/// The frame length declared by the header: the little-endian 32-bit value
/// in the first four bytes.
pub open spec fn spec_declared(b: Seq<u8>) -> int {
    b[0] + 0x100 * b[1] + 0x10000 * b[2] + 0x1000000 * b[3]
}

/// Whether the buffer's prefix parses as a netlink header: there are enough
/// bytes for one, and the declared length neither exceeds the buffer nor
/// falls short of the header's own size.  These are exactly the checks that
/// `netlink-packet-core`'s `NetlinkBuffer::new_checked` performs.
pub open spec fn header_ok(b: Seq<u8>) -> bool {
    &&& b.len() >= HEADER_LEN
    &&& spec_declared(b) <= b.len()
    &&& spec_declared(b) >= HEADER_LEN
}

/// Whether the slack (buffered bytes minus declared length) is small enough
/// to trigger the truncation workaround.
pub open spec fn slack_small(b: Seq<u8>) -> bool {
    b.len() - spec_declared(b) <= MAX_TRUNCATION_SLACK
}

/// The authoritative length of the next frame: the whole buffer when the
/// declared length is within `MAX_TRUNCATION_SLACK` of it, the declared
/// length otherwise.
pub open spec fn spec_resolved(b: Seq<u8>) -> int {
    if slack_small(b) {
        b.len() as int
    } else {
        spec_declared(b)
    }
}

/// `b` with its declared-length field overwritten by the little-endian
/// bytes of `v`.
pub open spec fn spec_store_len(b: Seq<u8>, v: int) -> Seq<u8> {
    b.update(0, (v % 0x100) as u8)
        .update(1, ((v / 0x100) % 0x100) as u8)
        .update(2, ((v / 0x10000) % 0x100) as u8)
        .update(3, ((v / 0x1000000) % 0x100) as u8)
}

/// Read the declared total frame length from the buffer's header prefix.
pub fn read_declared(src: &BytesMut) -> (r: u32)
    requires
        buf_bytes(*src).len() >= 4,
    ensures
        r as int == spec_declared(buf_bytes(*src)),
{
    let b0 = buf_get(src, 0);
    let b1 = buf_get(src, 1);
    let b2 = buf_get(src, 2);
    let b3 = buf_get(src, 3);
    (b0 as u32) + (b1 as u32) * 0x100 + (b2 as u32) * 0x10000 + (b3 as u32) * 0x1000000
}

/// Overwrite the declared total frame length in the buffer's header prefix.
/// Used only by the truncation workaround, so that downstream parsing of the
/// frame does not reject it for a length mismatch.
pub fn write_declared(src: &mut BytesMut, v: u32)
    requires
        buf_bytes(*old(src)).len() >= 4,
    ensures
        buf_bytes(*final(src)) == spec_store_len(buf_bytes(*old(src)), v as int),
{
    buf_set(src, 0, (v % 0x100) as u8);
    buf_set(src, 1, ((v / 0x100) % 0x100) as u8);
    buf_set(src, 2, ((v / 0x10000) % 0x100) as u8);
    buf_set(src, 3, ((v / 0x1000000) % 0x100) as u8);
}

/// Attempt to parse a netlink header over the buffer's current contents.
/// Returns the declared length on success; `None` means the header is
/// malformed and no reliable frame offset exists.
pub fn check_header(src: &BytesMut) -> (r: Option<u32>)
    ensures
        r is Some <==> header_ok(buf_bytes(*src)),
        r matches Some(d) ==> d as int == spec_declared(buf_bytes(*src)),
{
    let n = buf_len(src);
    if n < HEADER_LEN {
        return None;
    }
    let d = read_declared(src);
    if d as usize > n || d < HEADER_LEN as u32 {
        return None;
    }
    Some(d)
}

/// Decide the authoritative number of bytes belonging to the next frame,
/// given the buffered length and a successfully parsed declared length.
/// When the slack is at most `MAX_TRUNCATION_SLACK` the declared length is
/// unreliable in the truncating direction and the frame is the entire
/// remaining buffer; otherwise the declared length is trusted.
pub fn resolve_frame_length(buffered: usize, declared: u32) -> (r: usize)
    requires
        HEADER_LEN <= declared as int,
        declared as int <= buffered,
    ensures
        buffered - declared as int <= MAX_TRUNCATION_SLACK ==> r == buffered,
        buffered - declared as int > MAX_TRUNCATION_SLACK ==> r == declared as int,
        1 <= r <= buffered,
{
    if buffered - declared as usize <= MAX_TRUNCATION_SLACK {
        buffered
    } else {
        declared as usize
    }
}

} // verus!
