// Peer-to-peer encrypted file transfer: the key exchange with manual
// confirmation, key derivation, and the authenticated, length-framed envelope
// that carries one payload from sender to receiver.
//
//   handshake  ephemeral P-384 key exchange and the operators' confirmation
//   cipher     session key derivation and AES-256-GCM
//   framing    the envelope's byte layout
//   message    encrypting and framing a payload, and the reverse
//   transfer   progress of the chunked copy of a body of known length
//   args, error  the command line and the failure kinds

pub mod args;
pub mod cipher;
pub mod error;
pub mod framing;
pub mod handshake;
pub mod message;
pub mod transfer;
