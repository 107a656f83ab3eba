//! What can go wrong when a frame is read or written.

use vstd::prelude::*;
use vstd::string::*;
use crate::crypto::CipherError;

verus! {

/// Why bytes could not be read as a frame.
#[derive(Clone, Copy, Debug, PartialEq, Eq, Structural)]
pub enum FrameError {
    /// The buffer ends before the frame does. More bytes may complete it.
    TooShort,
    /// The header is not one of this protocol, or the body is malformed.
    Invalid,
    /// The cipher rejected the payload.
    DecryptionFailed(CipherError),
}

impl FrameError {
    /// A short text for the log.
    pub fn message(&self) -> (r: &'static str)
        ensures
            r@ == (match self {
                FrameError::TooShort => "stream ended early"@,
                FrameError::Invalid => "invalid frame"@,
                FrameError::DecryptionFailed(_) => "decryption failed"@,
            }),
    {
        match self {
            FrameError::TooShort => "stream ended early",
            FrameError::Invalid => "invalid frame",
            FrameError::DecryptionFailed(_) => "decryption failed",
        }
    }
}

/// Why a frame could not be written.
#[derive(Clone, Copy, Debug, PartialEq, Eq, Structural)]
pub enum EncodeError {
    /// The cipher refused the payload.
    EncryptionFailed(CipherError),
    /// The encrypted payload is longer than the 16-bit length field allows.
    PayloadTooLarge,
}

} // verus!
