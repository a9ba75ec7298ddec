//! The audit codec: decode loop with recovery policy, and encode passthrough.

use vstd::prelude::*;

use bytes::BytesMut;

use crate::buffer::{buf_bytes, buf_clear, buf_len, buf_split_to};
use crate::frame::{
    check_header, header_ok, resolve_frame_length, slack_small, spec_declared, spec_resolved,
    spec_store_len, write_declared,
};

verus! {

/// Error returned when a message cannot be appended to the output buffer.
#[derive(Debug, Clone, Copy, PartialEq, Eq, Structural)]
pub enum EncodeError {
    /// The message's lengths cannot be written to the wire faithfully:
    /// its header declares a length other than its serialized size, or
    /// the message is longer than an attribute's length field can span.
    /// The generic codec's serialization is not defined for such a
    /// message.
    InconsistentLength,
    /// The output buffer has no room left for the serialized message.
    BufferFull,
}

/// The capability a typed message family must supply: decode one frame's
/// bytes into a message, and serialize a message onto an output buffer.
/// New payload families plug into the framing core by implementing this.
pub trait FrameCodec: Sized {
    /// What deserializing a frame yields: parsing is a function of the
    /// frame's bytes alone.
    spec fn spec_parse(frame: Seq<u8>) -> Option<Self>;

    /// The bytes serializing this message produces.
    spec fn wire_of(self) -> Seq<u8>;

    /// The serialized size the message reports of itself before encoding.
    spec fn wire_len(self) -> nat;

    /// Whether the message's sizes can be written to the wire
    /// faithfully: its self-declared length agrees with its serialized
    /// size, and every length field the serialization writes can hold
    /// its value.  Serializing is well-defined only for such messages.
    spec fn wire_ready(self) -> bool;

    /// Attempt to decode one frame as a typed message.
    fn deserialize_frame(frame: &BytesMut) -> (r: Option<Self>)
        ensures
            r == Self::spec_parse(buf_bytes(*frame)),
    ;

    /// Test whether this message declares exactly its serialized size.
    fn check_wire_ready(&self) -> (r: bool)
        ensures
            r == self.wire_ready(),
    ;

    /// Serialize this message, appending it to `out`.  Success is owed
    /// whenever the buffer can still grow by the message's size; on
    /// success the appended bytes are one exactly-framed frame; on
    /// failure nothing is appended.
    fn serialize_frame(self, out: &mut BytesMut) -> (r: Result<(), EncodeError>)
        requires
            self.wire_ready(),
        ensures
            r is Ok ==> buf_bytes(*final(out)) == buf_bytes(*old(out)) + self.wire_of(),
            r is Ok ==> self.wire_of().len() == self.wire_len(),
            r is Ok ==> header_ok(self.wire_of()) && spec_declared(self.wire_of())
                == self.wire_of().len(),
            r is Err ==> buf_bytes(*final(out)) == buf_bytes(*old(out)),
            buf_bytes(*old(out)).len() + self.wire_len() <= isize::MAX as int ==> r is Ok,
    ;
}

/// The frame handed to the typed codec when the buffer starts with a
/// parseable header: the whole buffer with its length field rewritten when
/// the truncation workaround triggers, the declared-length prefix otherwise.
pub open spec fn frame_of(b: Seq<u8>) -> Seq<u8> {
    if slack_small(b) {
        spec_store_len(b, b.len() as u32 as int)
    } else {
        b.take(spec_declared(b))
    }
}

/// What remains buffered once the next frame has been split off.
pub open spec fn rest_of(b: Seq<u8>) -> Seq<u8> {
    b.skip(spec_resolved(b))
}

/// One decode invocation over the buffered bytes: the message produced, if
/// any, and the bytes left in the buffer afterwards.
///
/// An empty buffer yields no message and stays empty; an unparseable header
/// discards everything; otherwise one frame is split off, and a frame the
/// typed codec rejects is dropped while the loop continues on the rest.
pub open spec fn spec_decode<T: FrameCodec>(b: Seq<u8>) -> (Option<T>, Seq<u8>)
    decreases b.len(),
{
    if b.len() == 0 {
        (None::<T>, b)
    } else if !header_ok(b) {
        (None::<T>, Seq::<u8>::empty())
    } else {
        match T::spec_parse(frame_of(b)) {
            Some(m) => (Some(m), rest_of(b)),
            None => spec_decode::<T>(rest_of(b)),
        }
    }
}

/// Audit-specific codec, tolerating the framing defects of kernel audit
/// messages: a declared length that leaves out the header's own size, or
/// trailing alignment padding that the declared length does not count.
pub struct NetlinkAuditCodec {
    // we don't need an instance of this, just the type
    _private: (),
}

impl NetlinkAuditCodec {
    /// Decode the next message from the front of `src`.
    ///
    /// Never panics on malformed input: a corrupt header degrades to "no
    /// message" and an empty buffer, and a frame whose payload does not
    /// decode is dropped while later frames are still delivered.
    pub fn decode<T: FrameCodec>(src: &mut BytesMut) -> (r: Option<T>)
        ensures
            r == spec_decode::<T>(buf_bytes(*old(src))).0,
            buf_bytes(*final(src)) == spec_decode::<T>(buf_bytes(*old(src))).1,
    {
        loop
            invariant
                spec_decode::<T>(buf_bytes(*old(src))) == spec_decode::<T>(buf_bytes(*src)),
            decreases buf_bytes(*src).len(),
        {
            let ghost b = buf_bytes(*src);
            let n = buf_len(src);
            if n == 0 {
                return None;
            }
            match check_header(src) {
                None => {
                    // No reliable offset at which a next frame could begin:
                    // discard the whole buffer.
                    buf_clear(src);
                    return None;
                }
                Some(declared) => {
                    let len = resolve_frame_length(n, declared);
                    if len == n {
                        // Truncation workaround: the frame is the rest of
                        // the buffer; rewrite the declared length in place
                        // so downstream parsing accepts the frame.
                        write_declared(src, #[verifier::truncate] (n as u32));
                    }
                    let frame = buf_split_to(src, len);
                    proof {
                        if slack_small(b) {
                            assert(buf_bytes(frame) =~= frame_of(b));
                            assert(buf_bytes(*src) =~= rest_of(b));
                        }
                    }
                    match T::deserialize_frame(&frame) {
                        Some(m) => {
                            return Some(m);
                        }
                        None => {
                            // Bad payload behind a good header: drop this
                            // frame only and keep looping.
                        }
                    }
                }
            }
        }
    }

    /// Serialize `msg`, appending its bytes to `buf`: the encode
    /// passthrough.  A message whose lengths cannot be written to the
    /// wire faithfully is rejected with an error, as the generic codec's
    /// serialization is not defined for it; any other message is
    /// forwarded unchanged, and then success is owed unless the buffer
    /// cannot grow by the message's size.  On any failure no partial
    /// bytes are appended.
    pub fn encode<T: FrameCodec>(msg: T, buf: &mut BytesMut) -> (r: Result<(), EncodeError>)
        ensures
            r is Ok ==> buf_bytes(*final(buf)) == buf_bytes(*old(buf)) + msg.wire_of(),
            r is Ok ==> msg.wire_of().len() == msg.wire_len(),
            r is Ok ==> header_ok(msg.wire_of()) && spec_declared(msg.wire_of())
                == msg.wire_of().len(),
            r is Err ==> buf_bytes(*final(buf)) == buf_bytes(*old(buf)),
            !msg.wire_ready() ==> r == Err::<(), EncodeError>(EncodeError::InconsistentLength),
            msg.wire_ready() && buf_bytes(*old(buf)).len() + msg.wire_len() <= isize::MAX as int
                ==> r is Ok,
    {
        if !msg.check_wire_ready() {
            return Err(EncodeError::InconsistentLength);
        }
        msg.serialize_frame(buf)
    }
}

} // verus!
