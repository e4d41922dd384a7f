//! Plain socket address values.
//!
//! The library neither constructs nor validates addresses: it only carries
//! them from the receiving side to the typed packet view, and from the
//! caller to the sending side.

use vstd::prelude::*;

verus! {

/// An IP address held as plain bytes, in network byte order.
#[derive(Debug, Clone, Copy, PartialEq, Eq, Hash)]
pub enum IpAddr {
    V4([u8; 4]),
    V6([u8; 16]),
}

/// A socket address: an IP address together with a port.
#[derive(Debug, Clone, Copy, PartialEq, Eq, Hash)]
pub struct SocketAddr {
    pub ip: IpAddr,
    pub port: u16,
}

} // verus!
