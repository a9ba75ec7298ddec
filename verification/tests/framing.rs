use bytes::BytesMut;
use netlink_audit_codec::codec::NetlinkAuditCodec;
use netlink_audit_codec::route::RouteMessage;
use netlink_packet_core::NetlinkPayload;

// A well-formed error frame: 16-byte netlink header with message type
// NLMSG_ERROR, then a 4-byte error code, then `total - 20` trailing bytes.
// The declared length can be set independently of the true size.
fn error_frame(declared: u32, total: usize, code: i32) -> Vec<u8> {
    assert!(total >= 20);
    let mut v = vec![0u8; total];
    v[0..4].copy_from_slice(&declared.to_le_bytes());
    v[4..6].copy_from_slice(&2u16.to_le_bytes());
    v[16..20].copy_from_slice(&code.to_le_bytes());
    v
}

fn raw_code(m: RouteMessage) -> i32 {
    match m.into_inner().payload {
        NetlinkPayload::Error(e) => e.raw_code(),
        other => panic!("expected an error payload, got {other:?}"),
    }
}

#[test]
fn empty_buffer_returns_none() {
    let mut buf = BytesMut::new();
    let r = NetlinkAuditCodec::decode::<RouteMessage>(&mut buf);
    assert!(r.is_none());
    assert_eq!(buf.len(), 0);
}

#[test]
fn exact_frame_decodes_and_empties_buffer() {
    let mut buf = BytesMut::from(&error_frame(40, 40, -1)[..]);
    let r = NetlinkAuditCodec::decode::<RouteMessage>(&mut buf);
    assert_eq!(raw_code(r.expect("one message")), -1);
    assert_eq!(buf.len(), 0);
}

#[test]
fn truncated_length_consumes_whole_buffer() {
    // 36 buffered bytes, header declares 28: slack 8 triggers the
    // workaround, so all 36 bytes are one frame and the length field is
    // rewritten to 36; bytes 28..36 must not become a second frame.
    let mut buf = BytesMut::from(&error_frame(28, 36, -2)[..]);
    let r = NetlinkAuditCodec::decode::<RouteMessage>(&mut buf);
    let msg = r.expect("one message").into_inner();
    assert_eq!(msg.header.length, 36);
    match msg.payload {
        NetlinkPayload::Error(e) => assert_eq!(e.raw_code(), -2),
        other => panic!("expected an error payload, got {other:?}"),
    }
    assert_eq!(buf.len(), 0);
}

#[test]
fn two_frames_decode_in_order() {
    let mut bytes = error_frame(20, 20, 1);
    bytes.extend_from_slice(&error_frame(24, 24, 2));
    let mut buf = BytesMut::from(&bytes[..]);

    let first = NetlinkAuditCodec::decode::<RouteMessage>(&mut buf);
    assert_eq!(raw_code(first.expect("first message")), 1);
    assert_eq!(buf.len(), 24);

    let second = NetlinkAuditCodec::decode::<RouteMessage>(&mut buf);
    assert_eq!(raw_code(second.expect("second message")), 2);
    assert_eq!(buf.len(), 0);
}

#[test]
fn short_buffer_is_discarded() {
    let mut buf = BytesMut::from(&[1u8, 2, 3][..]);
    let r = NetlinkAuditCodec::decode::<RouteMessage>(&mut buf);
    assert!(r.is_none());
    assert_eq!(buf.len(), 0);
}

#[test]
fn inconsistent_length_field_discards_everything() {
    // The declared length (0) is below the header size: unrecoverable, the
    // whole buffer is dropped even though a valid frame follows.
    let mut bytes = error_frame(0, 24, 5);
    bytes.extend_from_slice(&error_frame(20, 20, 6));
    let mut buf = BytesMut::from(&bytes[..]);
    let r = NetlinkAuditCodec::decode::<RouteMessage>(&mut buf);
    assert!(r.is_none());
    assert_eq!(buf.len(), 0);
}

#[test]
fn undecodable_frame_is_skipped_next_frame_returned() {
    // First frame: well framed (declared 30, 30 bytes) but message type
    // 0xffff decodes into nothing; second frame: a valid 20-byte frame.
    let mut first = vec![0u8; 30];
    first[0..4].copy_from_slice(&30u32.to_le_bytes());
    first[4..6].copy_from_slice(&0xffffu16.to_le_bytes());
    let mut bytes = first;
    bytes.extend_from_slice(&error_frame(20, 20, 7));
    let mut buf = BytesMut::from(&bytes[..]);

    let r = NetlinkAuditCodec::decode::<RouteMessage>(&mut buf);
    assert_eq!(raw_code(r.expect("the second frame's message")), 7);
    assert_eq!(buf.len(), 0);
}

#[test]
fn repeated_calls_drain_any_buffer() {
    let mut bytes = error_frame(20, 20, 1);
    bytes.extend_from_slice(&error_frame(24, 24, 2));
    bytes.extend_from_slice(&[0xaa, 0xbb, 0xcc]);
    let mut buf = BytesMut::from(&bytes[..]);

    let mut previous = buf.len();
    let mut produced = 0;
    loop {
        let r = NetlinkAuditCodec::decode::<RouteMessage>(&mut buf);
        assert!(buf.len() <= previous);
        if r.is_none() {
            break;
        }
        assert!(buf.len() < previous);
        previous = buf.len();
        produced += 1;
        assert!(produced <= 3);
    }
    assert_eq!(buf.len(), 0);
    assert!(produced >= 1);
}
