//! The classifier: which of the four protocols a datagram belongs to.
//!
//! There is no framing field that says "I am STUN" or "I am RTP"; the
//! decision rests on disjoint-by-convention ranges of the first byte, with
//! the second byte telling RTP and RTCP apart. The ranges are checked in the
//! documented priority order, kept for auditability even though they do not
//! overlap.

use vstd::prelude::*;

use crate::error::IoError;
use crate::error::IoErrorKind;

verus! {

/// The four protocols that can share one socket endpoint.
#[derive(Debug, Clone, Copy, PartialEq, Eq, Structural)]
pub enum MultiplexKind {
    Stun,
    Dtls,
    Rtp,
    Rtcp,
}

/// What the leading bytes of a datagram classify it as, or `None` where no
/// known range matches.
///
/// In order: a first byte below 2 with at least the 20-byte STUN header is
/// STUN; a first byte in 20..64 is DTLS whatever the length; a first byte in
/// 128..192 with more than two bytes is RTP or RTCP by the payload type
/// `b[1] & 0x7f` (below 64 is RTP — an escape hatch reusing low payload-type
/// numbers when the dynamic range 96 and up is exhausted; 64..96 is RTCP;
/// 96 and up is RTP). Everything else is unrecognized.
pub open spec fn classify(b: Seq<u8>) -> Option<MultiplexKind> {
    if b.len() >= 1 {
        if b[0] < 2 && b.len() >= 20 {
            Some(MultiplexKind::Stun)
        } else if 20 <= b[0] < 64 {
            Some(MultiplexKind::Dtls)
        } else if 128 <= b[0] < 192 && b.len() > 2 {
            if (b[1] & 0x7f) < 64 {
                Some(MultiplexKind::Rtp)
            } else if (b[1] & 0x7f) < 96 {
                Some(MultiplexKind::Rtcp)
            } else {
                Some(MultiplexKind::Rtp)
            }
        } else {
            None
        }
    } else {
        None
    }
}

impl MultiplexKind {
    /// Decides which protocol `value` belongs to from its first bytes, or
    /// fails with an unrecognized-datagram error. Pure: no byte beyond the
    /// second is read, and nothing is copied.
    pub fn try_from(value: &[u8]) -> (r: Result<MultiplexKind, IoError>)
        ensures
            r matches Ok(k) ==> classify(value@) == Some(k),
            r is Err <==> classify(value@) is None,
            r matches Err(e) ==> e.kind == IoErrorKind::InvalidData
                && e.message@ == "Unknown datagram"@,
    {
        if value.len() == 0 {
            return Err(IoError::new(IoErrorKind::InvalidData, "Unknown datagram".to_owned()));
        }
        let byte0: u8 = value[0];
        let len: usize = value.len();

        if byte0 < 2 && len >= 20 {
            Ok(MultiplexKind::Stun)
        } else if byte0 >= 20 && byte0 < 64 {
            Ok(MultiplexKind::Dtls)
        } else if byte0 >= 128 && byte0 < 192 && len > 2 {
            let byte1: u8 = value[1];
            let payload_type: u8 = byte1 & 0x7f;

            Ok(if payload_type < 64 {
                // Low payload-type numbers are normally reserved or static,
                // but serve as an escape hatch when the dynamic range 96 and
                // up is exhausted; kept deliberately, interoperability
                // depends on it.
                MultiplexKind::Rtp
            } else if payload_type >= 64 && payload_type < 96 {
                MultiplexKind::Rtcp
            } else {
                MultiplexKind::Rtp
            })
        } else {
            Err(IoError::new(IoErrorKind::InvalidData, "Unknown datagram".to_owned()))
        }
    }
}

/// Any datagram of at least 20 bytes whose first byte is 0 or 1 is STUN.
pub proof fn lemma_classify_stun(b: Seq<u8>)
    requires
        b.len() >= 20,
        b[0] == 0 || b[0] == 1,
    ensures
        classify(b) == Some(MultiplexKind::Stun),
{
}

/// Any datagram whose first byte lies in 20..64 is DTLS, whatever its
/// length.
pub proof fn lemma_classify_dtls(b: Seq<u8>)
    requires
        b.len() >= 1,
        20 <= b[0] < 64,
    ensures
        classify(b) == Some(MultiplexKind::Dtls),
{
}

/// Any datagram of more than two bytes whose first byte lies in 128..192
/// and whose payload type is below 64 is RTP: the escape hatch that reuses
/// low payload-type numbers.
pub proof fn lemma_classify_rtp_low(b: Seq<u8>)
    requires
        b.len() > 2,
        128 <= b[0] < 192,
        (b[1] & 0x7f) < 64,
    ensures
        classify(b) == Some(MultiplexKind::Rtp),
{
}

/// Any datagram of more than two bytes whose first byte lies in 128..192
/// and whose payload type lies in 64..96 is RTCP.
pub proof fn lemma_classify_rtcp(b: Seq<u8>)
    requires
        b.len() > 2,
        128 <= b[0] < 192,
        64 <= (b[1] & 0x7f) < 96,
    ensures
        classify(b) == Some(MultiplexKind::Rtcp),
{
}

/// Any datagram of more than two bytes whose first byte lies in 128..192
/// and whose payload type is 96 or more is RTP: the conventional dynamic
/// payload-type range.
pub proof fn lemma_classify_rtp_dynamic(b: Seq<u8>)
    requires
        b.len() > 2,
        128 <= b[0] < 192,
        (b[1] & 0x7f) >= 96,
    ensures
        classify(b) == Some(MultiplexKind::Rtp),
{
}

/// No protocol is recognized where the first byte falls in one of the gaps
/// (2..20, 64..128, 192 and up), or where the length threshold of the
/// otherwise-matching range is violated: a first byte below 2 with fewer
/// than 20 bytes, a first byte in 128..192 with two bytes or fewer, or an
/// empty datagram.
pub proof fn lemma_classify_unrecognized(b: Seq<u8>)
    requires
        b.len() == 0 || (2 <= b[0] < 20) || (64 <= b[0] < 128) || b[0] >= 192 || (b[0] < 2
            && b.len() < 20) || (128 <= b[0] < 192 && b.len() <= 2),
    ensures
        classify(b) is None,
{
}

} // verus!
