use netlink_audit_codec::neighbour::{Handle, NeighbourHandle};
use netlink_packet_route::neighbour::NeighbourMessage;
use netlink_packet_route::RouteNetlinkMessage;
use netlink_proto::sys::protocols::NETLINK_ROUTE;

#[test]
fn neighbour_requests_carry_their_message() {
    let rt = tokio::runtime::Builder::new_current_thread()
        .enable_io()
        .build()
        .expect("tokio runtime");
    let _guard = rt.enter();
    let (_conn, conn_handle, _rx) =
        netlink_proto::new_connection::<RouteNetlinkMessage>(NETLINK_ROUTE)
            .expect("netlink route connection");

    let handle = Handle::new(conn_handle);
    let neighbours = NeighbourHandle::new(handle);

    let get = neighbours.get();
    assert_eq!(get.message, NeighbourMessage::default());

    let message = NeighbourMessage::default();
    let del = neighbours.del(message.clone());
    assert_eq!(del.message, message);
}
