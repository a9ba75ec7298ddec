//! A message-framing and decoding layer for netlink audit traffic.
//!
//! The kernel's audit subsystem is known to emit netlink frames whose
//! declared length is wrong: sometimes the header's own size is left out,
//! sometimes trailing alignment padding is not counted.  The codec in this
//! crate resolves the authoritative length of each buffered frame, works
//! around those defects, and drives a recovery-aware decode loop over a
//! buffer of concatenated datagrams.

pub mod buffer;
pub mod codec;
pub mod frame;
pub mod laws;
pub mod neighbour;
pub mod route;
