//! The routing payload family, backed by `netlink-packet-core`,
//! `netlink-packet-route` and `netlink-proto`.

use vstd::prelude::*;

use bytes::BytesMut;
use netlink_packet_core::NetlinkMessage;
use netlink_packet_route::RouteNetlinkMessage;
use netlink_proto::{NetlinkCodec, NetlinkMessageCodec};

use crate::buffer::buf_bytes;
use crate::codec::{EncodeError, FrameCodec};
use crate::frame::{spec_declared, HEADER_LEN};

verus! {

/// Declares `netlink_packet_core::NetlinkMessage` so that it can stand in
/// verified signatures and fields.
#[verifier::external_type_specification]
#[verifier::external_body]
#[verifier::reject_recursive_types(I)]
pub struct ExNetlinkMessage<I>(NetlinkMessage<I>);

/// Declares `netlink_packet_route::RouteNetlinkMessage`.
#[verifier::external_type_specification]
#[verifier::external_body]
pub struct ExRouteNetlinkMessage(RouteNetlinkMessage);

/// A typed message of the routing protocol family: a netlink header plus a
/// routing payload.  This is the message type this crate's codec produces
/// and consumes.
#[derive(Debug, PartialEq, Eq)]
pub struct RouteMessage {
    pub inner: NetlinkMessage<RouteNetlinkMessage>,
}

/// What `NetlinkMessage::<RouteNetlinkMessage>::deserialize` yields on a
/// frame's bytes: the parsed message, or nothing when the frame does not
/// decode.  Parsing depends on the frame's bytes alone.
pub uninterp spec fn route_parses(frame: Seq<u8>) -> Option<RouteMessage>;

/// The bytes serializing a routing message produces.  Serialization depends
/// on the message alone.
pub uninterp spec fn wire_bytes_of(m: RouteMessage) -> Seq<u8>;

/// The total serialized size the message reports of itself
/// (`NetlinkMessage::buffer_len`): a function of the message alone.
pub uninterp spec fn reported_len_of(m: RouteMessage) -> nat;

/// The value the message holds in its own netlink header's length field.
pub uninterp spec fn header_len_field_of(m: RouteMessage) -> u32;

/// Whether the message's header length field agrees with its serialized
/// size.  `NetlinkMessage::serialize` slices its output by that field, so
/// serialization is well-defined exactly for such messages; a message
/// assembled without finalizing its header (the field then still holds
/// zero) is not.
pub open spec fn wire_consistent(m: RouteMessage) -> bool {
    header_len_field_of(m) as nat == reported_len_of(m)
}

/// Upper bound on a serialized message: each attribute inside a netlink
/// message is stored with a 16-bit length field, so a message whose whole
/// serialization stays within that width writes every inner length
/// faithfully.
pub const MAX_EMIT_LEN: usize = 0xffff;

/// Whether every length field the serialization writes can hold its
/// value: the header's 32-bit length field agrees with the serialized
/// size, and the message is short enough that each attribute's size fits
/// the 16-bit length field it is stored with.
pub open spec fn wire_fits(m: RouteMessage) -> bool {
    wire_consistent(m) && reported_len_of(m) <= MAX_EMIT_LEN
}

/// Relies on `NetlinkMessage::buffer_len`: the serialized size of the
/// message, a computation determined by the message alone.
#[verifier::external_body]
fn reported_wire_len(m: &RouteMessage) -> (r: usize)
    ensures
        r as nat == reported_len_of(*m),
{
    m.inner.buffer_len()
}

/// Picks the length field out of the message's netlink header.
#[verifier::external_body]
fn declared_header_len(m: &RouteMessage) -> (r: u32)
    ensures
        r == header_len_field_of(*m),
{
    m.inner.header.length
}

/// Relies on `NetlinkMessage::<RouteNetlinkMessage>::deserialize`: it parses
/// the given bytes as one whole frame (header and payload), a computation
/// determined by those bytes.
#[verifier::external_body]
fn route_deserialize(frame: &BytesMut) -> (r: Option<RouteMessage>)
    ensures
        r == route_parses(buf_bytes(*frame)),
{
    match NetlinkMessage::<RouteNetlinkMessage>::deserialize(frame.as_ref()) {
        Ok(inner) => Some(RouteMessage { inner }),
        Err(_) => None,
    }
}

/// Relies on `netlink-proto`'s `NetlinkCodec::encode` and on
/// `NetlinkMessage::serialize`.  It errs exactly when the buffer cannot
/// grow by the message's reported size (a `BytesMut` caps its contents at
/// `isize::MAX` bytes), having appended nothing; otherwise it appends
/// exactly the serialized message, whose length is the reported size, at
/// least a header's worth, and whose first four bytes hold the header's
/// length field.  The `requires` admits only what serialization is
/// defined for: `serialize` slices its output by the header's own length
/// field, so that field must agree with the reported size; and each
/// attribute's size is written to a 16-bit length field (a longer one
/// would be truncated silently and the value copy behind it would
/// panic), so the whole message must fit that width.
#[verifier::external_body]
fn route_serialize(m: RouteMessage, out: &mut BytesMut) -> (r: Result<(), EncodeError>)
    requires
        wire_fits(m),
    ensures
        r is Ok <==> buf_bytes(*old(out)).len() + reported_len_of(m) <= isize::MAX as int,
        r is Ok ==> buf_bytes(*final(out)) == buf_bytes(*old(out)) + wire_bytes_of(m),
        r is Ok ==> wire_bytes_of(m).len() == reported_len_of(m),
        r is Ok ==> reported_len_of(m) >= HEADER_LEN,
        r is Ok ==> spec_declared(wire_bytes_of(m)) == header_len_field_of(m) as int,
        r is Err ==> buf_bytes(*final(out)) == buf_bytes(*old(out)),
{
    match <NetlinkCodec as NetlinkMessageCodec>::encode(m.inner, out) {
        Ok(()) => Ok(()),
        Err(_) => Err(EncodeError::BufferFull),
    }
}

impl FrameCodec for RouteMessage {
    open spec fn spec_parse(frame: Seq<u8>) -> Option<Self> {
        route_parses(frame)
    }

    open spec fn wire_of(self) -> Seq<u8> {
        wire_bytes_of(self)
    }

    open spec fn wire_len(self) -> nat {
        reported_len_of(self)
    }

    open spec fn wire_ready(self) -> bool {
        wire_fits(self)
    }

    fn deserialize_frame(frame: &BytesMut) -> (r: Option<Self>) {
        route_deserialize(frame)
    }

    fn check_wire_ready(&self) -> (r: bool) {
        let reported = reported_wire_len(self);
        let declared = declared_header_len(self);
        declared as usize == reported && reported <= MAX_EMIT_LEN
    }

    fn serialize_frame(self, out: &mut BytesMut) -> (r: Result<(), EncodeError>) {
        route_serialize(self, out)
    }
}

impl RouteMessage {
    /// Wrap a typed routing message.
    pub fn new(inner: NetlinkMessage<RouteNetlinkMessage>) -> (r: Self)
        ensures
            r.inner == inner,
    {
        RouteMessage { inner }
    }

    /// Consume the wrapper and return the typed routing message.
    pub fn into_inner(self) -> (r: NetlinkMessage<RouteNetlinkMessage>)
        ensures
            r == self.inner,
    {
        self.inner
    }
}

} // verus!
