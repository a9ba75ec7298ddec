use bytes::BytesMut;
use netlink_audit_codec::codec::{EncodeError, NetlinkAuditCodec};
use netlink_audit_codec::route::RouteMessage;
use netlink_packet_core::{DefaultNla, NetlinkHeader, NetlinkMessage, NetlinkPayload};
use netlink_packet_route::neighbour::{NeighbourAttribute, NeighbourMessage};
use netlink_packet_route::RouteNetlinkMessage;

fn new_neighbour_message() -> NetlinkMessage<RouteNetlinkMessage> {
    let payload = NetlinkPayload::InnerMessage(RouteNetlinkMessage::NewNeighbour(
        NeighbourMessage::default(),
    ));
    let mut msg = NetlinkMessage::new(NetlinkHeader::default(), payload);
    msg.finalize();
    msg
}

#[test]
fn encode_then_decode_returns_equal_message() {
    let original = new_neighbour_message();
    let mut buf = BytesMut::new();
    NetlinkAuditCodec::encode(RouteMessage::new(original.clone()), &mut buf)
        .expect("encoding succeeds");
    assert!(buf.len() > 0);

    let decoded = NetlinkAuditCodec::decode::<RouteMessage>(&mut buf)
        .expect("the encoded bytes decode back");
    assert_eq!(decoded.into_inner(), original);
    assert_eq!(buf.len(), 0);
}

#[test]
fn encode_rejects_message_with_inconsistent_length() {
    // Without finalize() the header's length field still holds zero, so
    // it disagrees with the serialized size: encode must return the
    // inconsistency error and append nothing rather than panic.
    let payload = NetlinkPayload::InnerMessage(RouteNetlinkMessage::NewNeighbour(
        NeighbourMessage::default(),
    ));
    let msg = NetlinkMessage::new(NetlinkHeader::default(), payload);
    let mut buf = BytesMut::new();
    let r = NetlinkAuditCodec::encode(RouteMessage::new(msg), &mut buf);
    assert_eq!(r, Err(EncodeError::InconsistentLength));
    assert_eq!(buf.len(), 0);
}

#[test]
fn encode_rejects_message_longer_than_attribute_length_field() {
    // A finalized message whose header agrees with its serialized size,
    // but which holds a 70000-byte attribute: an attribute's length is
    // written to a 16-bit field, so this message cannot be serialized
    // faithfully.  Encode must return the length error and append
    // nothing rather than panic inside the serializer.
    let attribute = NeighbourAttribute::Other(DefaultNla::new(0x70, vec![0u8; 70000]));
    let mut neighbour = NeighbourMessage::default();
    neighbour.attributes.push(attribute);
    let payload =
        NetlinkPayload::InnerMessage(RouteNetlinkMessage::NewNeighbour(neighbour));
    let mut msg = NetlinkMessage::new(NetlinkHeader::default(), payload);
    msg.finalize();

    let mut buf = BytesMut::new();
    let r = NetlinkAuditCodec::encode(RouteMessage::new(msg), &mut buf);
    assert_eq!(r, Err(EncodeError::InconsistentLength));
    assert_eq!(buf.len(), 0);
}

#[test]
fn encode_appends_two_messages_decode_both() {
    let original = new_neighbour_message();
    let mut buf = BytesMut::new();
    NetlinkAuditCodec::encode(RouteMessage::new(original.clone()), &mut buf)
        .expect("first encode succeeds");
    let after_one = buf.len();
    NetlinkAuditCodec::encode(RouteMessage::new(original.clone()), &mut buf)
        .expect("second encode succeeds");
    assert_eq!(buf.len(), 2 * after_one);

    let first = NetlinkAuditCodec::decode::<RouteMessage>(&mut buf).expect("first message");
    assert_eq!(first.into_inner(), original);
    assert_eq!(buf.len(), after_one);

    let second = NetlinkAuditCodec::decode::<RouteMessage>(&mut buf).expect("second message");
    assert_eq!(second.into_inner(), original);
    assert_eq!(buf.len(), 0);
}
