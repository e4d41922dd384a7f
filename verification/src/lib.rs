//! Datagram classification and zero-copy typed views for a multiplexed UDP
//! transport in which STUN, DTLS, RTP and RTCP share one socket endpoint.
//!
//! Given a raw received buffer, the library decides which of the four
//! protocols it belongs to by inspecting the first two bytes, and wraps the
//! buffer in a borrowed, typed view without copying it.

use vstd::prelude::*;

mod addr;
mod error;
mod mux;
mod packet;
mod stun;

pub use addr::IpAddr;
pub use addr::SocketAddr;
pub use error::IoError;
pub use error::IoErrorKind;
pub use error::NetError;
pub use error::StunError;
pub use mux::classify;
pub use mux::MultiplexKind;
pub use packet::DatagramRecv;
pub use packet::DatagramSend;
pub use packet::Receive;
pub use packet::Transmit;
pub use stun::is_stun_header;
pub use stun::StunMessage;

verus! {

/// Advisory maximum datagram size. Callers use it to size receive buffers;
/// the classifier itself does not enforce it.
pub const DATAGRAM_MTU: usize = 1500;

} // verus!
