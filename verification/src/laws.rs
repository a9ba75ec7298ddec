//! Laws of the decode loop, stated and proved over the spec-level decoder.
//!
//! `NetlinkAuditCodec::decode` ensures that its result and the buffer it
//! leaves behind are exactly `spec_decode` of the buffered bytes, so each
//! law below holds of the executable codec as well.

use vstd::prelude::*;

use vstd::arithmetic::div_mod::{lemma_div_denominator, lemma_fundamental_div_mod_converse};

use crate::codec::{frame_of, rest_of, spec_decode, FrameCodec};
use crate::frame::{header_ok, slack_small, spec_declared, spec_resolved, spec_store_len};

verus! {

/// Decoding an empty buffer yields no message and leaves the buffer empty,
/// with no other effect.
pub proof fn lemma_empty_buffer_is_none<T: FrameCodec>(b: Seq<u8>)
    requires
        b.len() == 0,
    ensures
        spec_decode::<T>(b) == (None::<T>, b),
{
}

/// A buffer that does not start with a parseable header is discarded
/// entirely: no message comes out and nothing stays buffered, even if
/// valid-looking bytes followed the corrupt prefix.
pub proof fn lemma_corrupt_header_clears<T: FrameCodec>(b: Seq<u8>)
    requires
        b.len() > 0,
        !header_ok(b),
    ensures
        spec_decode::<T>(b) == (None::<T>, Seq::<u8>::empty()),
{
}

/// One decode invocation never grows the buffer, and strictly shrinks a
/// nonempty one.  Repeated invocations therefore reach the empty buffer,
/// on which no message is produced.
pub proof fn lemma_decode_drains<T: FrameCodec>(b: Seq<u8>)
    ensures
        spec_decode::<T>(b).1.len() <= b.len(),
        b.len() > 0 ==> spec_decode::<T>(b).1.len() < b.len(),
    decreases b.len(),
{
    if b.len() > 0 && header_ok(b) {
        if T::spec_parse(frame_of(b)) is None {
            lemma_decode_drains::<T>(rest_of(b));
        }
    }
}

/// The buffer left behind once `n` decode invocations have run, one after
/// the other, starting from `b`.
pub open spec fn buffer_after_calls<T: FrameCodec>(b: Seq<u8>, n: nat) -> Seq<u8>
    decreases n,
{
    if n == 0 {
        b
    } else {
        buffer_after_calls::<T>(spec_decode::<T>(b).1, (n - 1) as nat)
    }
}

/// Repeated decode invocations drain any buffer: after at most as many
/// calls as there are bytes buffered, the buffer is empty, and every call
/// from then on returns no message.
pub proof fn lemma_repeated_calls_reach_none<T: FrameCodec>(b: Seq<u8>, n: nat)
    requires
        n >= b.len(),
    ensures
        buffer_after_calls::<T>(b, n).len() == 0,
        spec_decode::<T>(buffer_after_calls::<T>(b, n)).0 is None,
    decreases n,
{
    if n > 0 {
        lemma_decode_drains::<T>(b);
        lemma_repeated_calls_reach_none::<T>(spec_decode::<T>(b).1, (n - 1) as nat);
    }
}

/// When the declared length is within the slack tolerance of the buffered
/// length, the whole remaining buffer is one frame: the typed codec sees
/// the entire (length-rewritten) buffer, nothing is left behind, and no
/// tail of the buffer is ever treated as a second frame.
pub proof fn lemma_small_slack_consumes_all<T: FrameCodec>(b: Seq<u8>)
    requires
        b.len() > 0,
        header_ok(b),
        slack_small(b),
    ensures
        spec_decode::<T>(b).0 == T::spec_parse(frame_of(b)),
        spec_decode::<T>(b).1 == Seq::<u8>::empty(),
        frame_of(b).len() == b.len(),
{
    assert(rest_of(b) =~= Seq::<u8>::empty());
    if T::spec_parse(frame_of(b)) is None {
        lemma_empty_buffer_is_none::<T>(rest_of(b));
    }
}

/// The declared length of a parseable header decomposes into the four
/// little-endian bytes it was read from.
proof fn lemma_declared_bytes(b: Seq<u8>)
    requires
        b.len() >= 4,
    ensures
        spec_declared(b) % 0x100 == b[0],
        (spec_declared(b) / 0x100) % 0x100 == b[1],
        (spec_declared(b) / 0x10000) % 0x100 == b[2],
        (spec_declared(b) / 0x1000000) % 0x100 == b[3],
{
    let v = spec_declared(b);
    let b0 = b[0] as int;
    let b1 = b[1] as int;
    let b2 = b[2] as int;
    let b3 = b[3] as int;
    let q1 = b1 + 0x100 * (b2 + 0x100 * b3);
    let q2 = b2 + 0x100 * b3;
    lemma_fundamental_div_mod_converse(v, 0x100, q1, b0);
    lemma_fundamental_div_mod_converse(q1, 0x100, q2, b1);
    lemma_fundamental_div_mod_converse(q2, 0x100, b3, b2);
    lemma_div_denominator(v, 0x100, 0x100);
    assert(v / 0x10000 == q2);
    lemma_div_denominator(v, 0x10000, 0x100);
    assert(v / 0x1000000 == b3);
    lemma_fundamental_div_mod_converse(b3, 0x100, 0, b3);
}

/// A buffer holding exactly one well-formed frame whose declared length
/// equals its byte length passes through the framing untouched: the typed
/// codec is handed exactly those bytes (rewriting the length field stores
/// the value it already holds) and the buffer ends empty.
pub proof fn lemma_exact_frame_passthrough<T: FrameCodec>(b: Seq<u8>)
    requires
        header_ok(b),
        spec_declared(b) == b.len(),
    ensures
        frame_of(b) == b,
        spec_decode::<T>(b).0 == T::spec_parse(b),
        spec_decode::<T>(b).1 == Seq::<u8>::empty(),
{
    lemma_declared_bytes(b);
    assert(b.len() as u32 as int == spec_declared(b));
    assert(frame_of(b) =~= b);
    lemma_small_slack_consumes_all::<T>(b);
}

/// The encode/decode round trip.  `encode` ensures of everything it
/// appends that the bytes are one exactly-framed frame (the first two
/// premises); under the one hypothesis this crate leaves to the typed
/// codec pair — that it parses its own serialization back to the same
/// message — a single decode of those bytes returns the message and
/// leaves nothing buffered.
pub proof fn lemma_round_trip_returns_message<T: FrameCodec>(m: T)
    requires
        header_ok(m.wire_of()),
        spec_declared(m.wire_of()) == m.wire_of().len(),
        T::spec_parse(m.wire_of()) == Some(m),
    ensures
        spec_decode::<T>(m.wire_of()) == (Some(m), Seq::<u8>::empty()),
{
    lemma_exact_frame_passthrough::<T>(m.wire_of());
}

/// A frame with a good header but an undecodable payload is dropped alone:
/// decoding the buffer is decoding what lies beyond that frame.
pub proof fn lemma_undecodable_frame_skipped<T: FrameCodec>(b: Seq<u8>)
    requires
        b.len() > 0,
        header_ok(b),
        T::spec_parse(frame_of(b)) is None,
    ensures
        spec_decode::<T>(b) == spec_decode::<T>(rest_of(b)),
{
}

/// When the first frame decodes, its message is returned at once and every
/// byte beyond the resolved frame length stays buffered for later calls.
pub proof fn lemma_first_frame_returned<T: FrameCodec>(b: Seq<u8>, m: T)
    requires
        b.len() > 0,
        header_ok(b),
        T::spec_parse(frame_of(b)) == Some(m),
    ensures
        spec_decode::<T>(b) == (Some(m), b.skip(spec_resolved(b))),
{
}

} // verus!

