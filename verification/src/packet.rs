//! Outgoing and received packet records, and the zero-copy typed view over
//! a classified datagram.

use vstd::prelude::*;

use crate::addr::SocketAddr;
use crate::error::NetError;
use crate::error::IoErrorKind;
use crate::mux::classify;
use crate::mux::MultiplexKind;
use crate::stun::StunMessage;

verus! {

/// Owned contents of one outgoing datagram.
#[derive(Debug)]
pub struct DatagramSend(Vec<u8>);

impl View for DatagramSend {
    type V = Seq<u8>;

    closed spec fn view(&self) -> Seq<u8> {
        self.0@
    }
}

impl DatagramSend {
    pub fn new(v: Vec<u8>) -> (r: Self)
        ensures
            r@ == v@,
    {
        DatagramSend(v)
    }

    /// The payload bytes, borrowed.
    pub fn as_slice(&self) -> (r: &[u8])
        ensures
            r@ == self@,
    {
        self.0.as_slice()
    }

    /// The payload length in bytes.
    pub fn len(&self) -> (r: usize)
        ensures
            r == self@.len(),
    {
        self.0.len()
    }
}

/// An outgoing packet: one datagram to be sent, consumed by the caller's
/// I/O layer.
#[derive(Debug)]
pub struct Transmit {
    /// The source socket this packet should be sent from. The sending host
    /// may be multi-homed, so the transport layer must emit the datagram
    /// from the interface matching this address.
    pub source: SocketAddr,

    /// The socket this datagram should be sent to.
    pub destination: SocketAddr,

    /// Contents of the datagram.
    pub contents: DatagramSend,
}

/// The typed, borrowed view over one classified inbound datagram. Exactly
/// one variant is active, and the byte range underlying each variant is the
/// entire original datagram, unmodified.
#[derive(Debug, Clone, Copy)]
pub enum DatagramRecv<'a> {
    Stun(StunMessage<'a>),
    Dtls(&'a [u8]),
    Rtp(&'a [u8]),
    Rtcp(&'a [u8]),
}

impl<'a> DatagramRecv<'a> {
    /// The classification tag this view carries.
    pub open spec fn spec_kind(&self) -> MultiplexKind {
        match self {
            DatagramRecv::Stun(_) => MultiplexKind::Stun,
            DatagramRecv::Dtls(_) => MultiplexKind::Dtls,
            DatagramRecv::Rtp(_) => MultiplexKind::Rtp,
            DatagramRecv::Rtcp(_) => MultiplexKind::Rtcp,
        }
    }

    /// The classification tag this view carries.
    #[verifier::when_used_as_spec(spec_kind)]
    pub fn kind(&self) -> (k: MultiplexKind)
        ensures
            k == self.spec_kind(),
    {
        match self {
            DatagramRecv::Stun(_) => MultiplexKind::Stun,
            DatagramRecv::Dtls(_) => MultiplexKind::Dtls,
            DatagramRecv::Rtp(_) => MultiplexKind::Rtp,
            DatagramRecv::Rtcp(_) => MultiplexKind::Rtcp,
        }
    }

    /// The bytes underlying the view: always the whole original datagram.
    pub open spec fn bytes(self) -> Seq<u8> {
        match self {
            DatagramRecv::Stun(m) => m@,
            DatagramRecv::Dtls(b) => b@,
            DatagramRecv::Rtp(b) => b@,
            DatagramRecv::Rtcp(b) => b@,
        }
    }

    /// Classifies `value` and wraps it in the matching typed view, without
    /// copying a byte. Fails exactly where the classifier recognizes no
    /// protocol; a buffer classified as STUN always has the STUN header
    /// shape, so the STUN view never fails on it.
    pub fn try_from(value: &'a [u8]) -> (r: Result<DatagramRecv<'a>, NetError>)
        ensures
            r matches Ok(d) ==> classify(value@) == Some(d.kind()) && d.bytes() == value@,
            r is Err <==> classify(value@) is None,
            r matches Err(e) ==> (e matches NetError::Io(io)
                && io.kind == IoErrorKind::InvalidData),
    {
        let kind = match MultiplexKind::try_from(value) {
            Ok(k) => k,
            Err(e) => {
                return Err(NetError::Io(e));
            },
        };

        match kind {
            MultiplexKind::Stun => match StunMessage::parse(value) {
                Ok(m) => Ok(DatagramRecv::Stun(m)),
                Err(e) => Err(NetError::Stun(e)),
            },
            MultiplexKind::Dtls => Ok(DatagramRecv::Dtls(value)),
            MultiplexKind::Rtp => Ok(DatagramRecv::Rtp(value)),
            MultiplexKind::Rtcp => Ok(DatagramRecv::Rtcp(value)),
        }
    }
}

/// Received incoming data: the typed view over one inbound datagram,
/// together with the addresses it travelled between. Borrows from the
/// caller-owned buffer and never outlives it.
#[derive(Debug)]
pub struct Receive<'a> {
    /// The socket this received data originated from.
    pub source: SocketAddr,

    /// The destination ip of the datagram.
    pub destination: SocketAddr,

    /// Parsed contents of the datagram.
    pub contents: DatagramRecv<'a>,
}

impl<'a> Receive<'a> {
    /// Creates a new instance by trying to classify the contents of `buf`.
    pub fn new(source: SocketAddr, destination: SocketAddr, buf: &'a [u8]) -> (r: Result<
        Receive<'a>,
        NetError,
    >)
        ensures
            r matches Ok(p) ==> p.source == source && p.destination == destination
                && classify(buf@) == Some(p.contents.kind()) && p.contents.bytes() == buf@,
            r is Err <==> classify(buf@) is None,
    {
        let contents = match DatagramRecv::try_from(buf) {
            Ok(c) => c,
            Err(e) => {
                return Err(e);
            },
        };
        Ok(Receive { source, destination, contents })
    }

    /// A received view over an outgoing packet's own payload, for local echo
    /// and loopback paths: the same classification rule applies to the
    /// outgoing payload's bytes as to a datagram taken off the wire.
    pub fn try_from(t: &'a Transmit) -> (r: Result<Receive<'a>, NetError>)
        ensures
            r matches Ok(p) ==> p.source == t.source && p.destination == t.destination
                && classify(t.contents@) == Some(p.contents.kind())
                && p.contents.bytes() == t.contents@,
            r is Err <==> classify(t.contents@) is None,
    {
        let contents = match DatagramRecv::try_from(t.contents.as_slice()) {
            Ok(c) => c,
            Err(e) => {
                return Err(e);
            },
        };
        Ok(Receive { source: t.source, destination: t.destination, contents })
    }
}

} // verus!
