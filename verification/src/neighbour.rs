//! Neighbour-table requests: handles and request builders for listing,
//! adding and deleting neighbour entries.
//!
//! Building a request only shapes data; sending it and matching replies
//! belong to the surrounding transport layer.

use vstd::prelude::*;

use netlink_packet_route::neighbour::NeighbourMessage;
use netlink_packet_route::RouteNetlinkMessage;
use netlink_proto::ConnectionHandle;

verus! {

/// Declares `netlink_proto::ConnectionHandle`.
#[verifier::external_type_specification]
#[verifier::external_body]
#[verifier::reject_recursive_types(T)]
pub struct ExConnectionHandle<T: core::fmt::Debug>(ConnectionHandle<T>);

/// Declares `netlink_packet_route::neighbour::NeighbourMessage`.
#[verifier::external_type_specification]
#[verifier::external_body]
pub struct ExNeighbourMessage(NeighbourMessage);

/// Relies on the derived `Clone` of `netlink_proto::ConnectionHandle`: a
/// second handle to the same connection.  Nothing is promised of the value.
pub assume_specification<T>[ <ConnectionHandle<T> as Clone>::clone ](
    h: &ConnectionHandle<T>,
) -> ConnectionHandle<T>
    where
        T: Clone + core::fmt::Debug,
;

/// A handle to a running routing-protocol connection, used to build
/// requests against it.
#[derive(Clone)]
pub struct Handle {
    pub conn: ConnectionHandle<RouteNetlinkMessage>,
}

impl Handle {
    /// Wrap a connection handle.
    pub fn new(conn: ConnectionHandle<RouteNetlinkMessage>) -> (r: Self)
        ensures
            r.conn == conn,
    {
        Handle { conn }
    }
}

/// Relies on `NeighbourMessage::default` (a derived `Default`): a freshly
/// initialized, empty neighbour message.
#[verifier::external_body]
fn default_neighbour_message() -> NeighbourMessage {
    NeighbourMessage::default()
}

/// A request to list neighbour entries.
pub struct NeighbourGetRequest {
    pub handle: Handle,
    pub message: NeighbourMessage,
}

impl NeighbourGetRequest {
    /// Build a fresh listing request against the given connection.
    pub fn new(handle: Handle) -> (r: Self)
        ensures
            r.handle == handle,
    {
        NeighbourGetRequest { handle, message: default_neighbour_message() }
    }
}

/// A request to delete one neighbour entry.
pub struct NeighbourDelRequest {
    pub handle: Handle,
    pub message: NeighbourMessage,
}

impl NeighbourDelRequest {
    /// Build a deletion request for the given entry.
    pub fn new(handle: Handle, message: NeighbourMessage) -> (r: Self)
        ensures
            r.handle == handle,
            r.message == message,
    {
        NeighbourDelRequest { handle, message }
    }
}

/// Access to the neighbour table of a routing-protocol connection.
pub struct NeighbourHandle(pub Handle);

impl NeighbourHandle {
    pub fn new(handle: Handle) -> (r: Self)
        ensures
            r.0 == handle,
    {
        NeighbourHandle(handle)
    }

    /// List neighbour entries (equivalent to `ip neighbour show`)
    pub fn get(&self) -> NeighbourGetRequest {
        NeighbourGetRequest::new(self.0.clone())
    }

    /// Delete a neighbour entry (equivalent to `ip neighbour delete`)
    pub fn del(&self, message: NeighbourMessage) -> (r: NeighbourDelRequest)
        ensures
            r.message == message,
    {
        NeighbourDelRequest::new(self.0.clone(), message)
    }
}

} // verus!
