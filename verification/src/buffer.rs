//! The receive buffer: a trusted view of the `bytes` crate's `BytesMut`.
//!
//! The transport layer owns a `BytesMut` holding all bytes received so far;
//! the codec consumes it from the front.  Verified code never looks inside a
//! `BytesMut` directly: it sees the buffer through `buf_bytes`, the sequence
//! of bytes it holds, and manipulates it through the small wrappers below.

use vstd::prelude::*;

use bytes::BytesMut;

verus! {

/// Declares `bytes::BytesMut` so that it can stand in verified signatures.
#[verifier::external_type_specification]
#[verifier::external_body]
pub struct ExBytesMut(BytesMut);

/// The bytes a `BytesMut` holds, in order, as a mathematical sequence.
pub uninterp spec fn buf_bytes(b: BytesMut) -> Seq<u8>;

/// Relies on `BytesMut::len`: the number of bytes the buffer holds.
#[verifier::external_body]
pub fn buf_len(b: &BytesMut) -> (r: usize)
    ensures
        r == buf_bytes(*b).len(),
{
    b.len()
}

/// Relies on indexing through `BytesMut`'s `Deref` to `[u8]`: the byte at `i`.
#[verifier::external_body]
pub fn buf_get(b: &BytesMut, i: usize) -> (r: u8)
    requires
        i < buf_bytes(*b).len(),
    ensures
        r == buf_bytes(*b)[i as int],
{
    b[i]
}

/// Relies on indexing through `BytesMut`'s `DerefMut` to `[u8]`: overwrites
/// the byte at `i` in place.
#[verifier::external_body]
pub fn buf_set(b: &mut BytesMut, i: usize, v: u8)
    requires
        i < buf_bytes(*old(b)).len(),
    ensures
        buf_bytes(*final(b)) == buf_bytes(*old(b)).update(i as int, v),
{
    b[i] = v;
}

/// Relies on `BytesMut::split_to`: removes the first `at` bytes from the
/// buffer and returns them; the buffer keeps the remainder.
#[verifier::external_body]
pub fn buf_split_to(b: &mut BytesMut, at: usize) -> (r: BytesMut)
    requires
        at <= buf_bytes(*old(b)).len(),
    ensures
        buf_bytes(r) == buf_bytes(*old(b)).take(at as int),
        buf_bytes(*final(b)) == buf_bytes(*old(b)).skip(at as int),
{
    b.split_to(at)
}

/// Relies on `BytesMut::clear`: removes every byte from the buffer.
#[verifier::external_body]
pub fn buf_clear(b: &mut BytesMut)
    ensures
        buf_bytes(*final(b)) == Seq::<u8>::empty(),
{
    b.clear()
}

} // verus!
