use vstd::prelude::*;

verus! {

/// Every way a chunk exchange or an envelope operation can fail.
#[derive(Debug, Clone, Copy, PartialEq, Eq, Structural)]
pub enum FileTransferError {
    /// The bytes at a frame boundary are not the magic header.
    InvalidHeader,
    /// A declared length is above the cap, disagrees with the one sent,
    /// or an envelope is too short to hold an IV and a tag.
    InvalidLength,
    /// The authentication tag does not match the envelope.
    HmacVerifyFail,
    /// The connection failed: refused, reset or timed out.
    IOError,
    /// The key is too short for the block cipher.
    KeyIvError,
    /// The tag matched but the decrypted padding is malformed.
    BlockModeError,
    /// The acknowledgement does not end in "OK".
    Generic,
}

} // verus!
