use vstd::prelude::*;

verus! {

/// Why receiving a message failed.
#[derive(Debug, Clone, Copy, PartialEq, Eq, Structural)]
pub enum MessageReceiveError {
    /// The stream ended before the nonce was complete.
    Nonce,
    /// The stream ended before the length field was complete.
    Size,
    /// The body does not hold exactly the declared number of bytes.
    Body,
    /// Authenticated decryption failed.
    Decrypt,
    /// The decrypted archive could not be unpacked.
    Unzip,
}

/// Why sending a message failed.
#[derive(Debug, Clone, Copy, PartialEq, Eq, Structural)]
pub enum MessageSendError {
    /// The payload could not be packaged.
    Zip,
    /// Encryption refused the payload.
    Encrypt,
    /// Writing the nonce failed.
    Nonce,
    /// Writing the length field failed.
    Size,
    /// Writing the ciphertext failed.
    Body,
}

/// Why the key exchange failed.
#[derive(Debug, Clone, Copy, PartialEq, Eq, Structural)]
pub enum HandshakeError {
    /// The peer's public key is not a well-formed uncompressed point on the curve.
    MalformedRemoteKey,
    /// An operator answered that the displayed keys differ.
    Rejected,
}

} // verus!
