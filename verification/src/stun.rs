//! A shallow, zero-copy view over a STUN datagram.
//!
//! Only the shape of the fixed 20-byte header is checked here: a STUN
//! message is never shorter than that header, and the leading two bits of
//! its message-type field are always zero. Attributes and transaction
//! machinery are interpreted downstream by the connectivity-check logic,
//! which is a separate concern.

use vstd::prelude::*;

use crate::error::StunError;

verus! {

/// The conditions under which a buffer is accepted as a STUN message: at
/// least the fixed 20-byte header, with the leading two bits zero.
pub open spec fn is_stun_header(b: Seq<u8>) -> bool {
    b.len() >= 20 && b[0] < 2
}

/// A borrowed view over one STUN datagram whose header shape has been
/// checked. The view holds the entire original datagram, unmodified.
#[derive(Debug, Clone, Copy)]
pub struct StunMessage<'a> {
    bytes: &'a [u8],
}

impl<'a> View for StunMessage<'a> {
    type V = Seq<u8>;

    closed spec fn view(&self) -> Seq<u8> {
        self.bytes@
    }
}

impl<'a> StunMessage<'a> {
    /// Accepts `value` as a STUN message exactly when it has the header
    /// shape, and wraps it without copying.
    pub fn parse(value: &'a [u8]) -> (r: Result<StunMessage<'a>, StunError>)
        ensures
            r is Ok <==> is_stun_header(value@),
            r matches Ok(m) ==> m@ == value@,
            r matches Err(e) ==> e == StunError::Parse,
    {
        if value.len() >= 20 && value[0] < 2 {
            Ok(StunMessage { bytes: value })
        } else {
            Err(StunError::Parse)
        }
    }

    /// The raw bytes of the whole datagram underlying this view.
    pub fn raw(&self) -> (r: &'a [u8])
        ensures
            r@ == self@,
    {
        self.bytes
    }
}

} // verus!
