//! The unified error sum for classification and parsing.
//!
//! A datagram is either fully classified or rejected outright: there is no
//! partial-success state, and nothing is retried or logged at this layer.

use vstd::prelude::*;

verus! {

/// Why a buffer could not be accepted as a STUN message.
#[derive(Debug, Clone, Copy, PartialEq, Eq)]
pub enum StunError {
    /// The buffer does not have the shape of a STUN message: shorter than
    /// the fixed 20-byte header, or the leading two bits are not zero.
    Parse,
}

/// The rough category of an [`IoError`].
#[derive(Debug, Clone, Copy, PartialEq, Eq)]
pub enum IoErrorKind {
    /// The bytes at hand do not match any protocol this library recognizes.
    InvalidData,
    /// A lower-level transport failure, surfaced by the caller's I/O layer;
    /// never produced by the classifier itself.
    Other,
}

/// A low-level failure: an unrecognized datagram, or an I/O failure that the
/// caller's transport layer wraps for uniform reporting.
#[derive(Debug)]
pub struct IoError {
    pub kind: IoErrorKind,
    pub message: String,
}

impl IoError {
    pub fn new(kind: IoErrorKind, message: String) -> (r: IoError)
        ensures
            r.kind == kind,
            r.message == message,
    {
        IoError { kind, message }
    }
}

/// Every failure this library reports: either the buffer had the shape of a
/// STUN message but was malformed, or it was unrecognized or hit an I/O
/// failure. The distinction between "wrong shape" and "right shape but
/// invalid contents" is kept.
#[derive(Debug)]
pub enum NetError {
    Stun(StunError),
    Io(IoError),
}

} // verus!
