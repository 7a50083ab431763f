use vstd::prelude::*;
use crate::cipher::{compute_cipher, hkdf_sha256_prk, SymmetricKey};
use crate::error::HandshakeError;
use crate::framing::copy_range;
use p384::ecdh::diffie_hellman;
use p384::{EncodedPoint, PublicKey, SecretKey};

verus! {

/// Length in bytes of an uncompressed SEC1 encoding of a P-384 point.
pub const PUBLIC_KEY_LEN: usize = 97;

/// Length in bytes of the raw P-384 Diffie-Hellman secret.
pub const SHARED_SECRET_LEN: usize = 48;

/// First byte of an uncompressed SEC1 point encoding.
pub const UNCOMPRESSED_TAG: u8 = 4;

/// Length in bytes of a P-384 secret scalar.
pub const SECRET_LEN: usize = 48;

/// Whether `bytes` is a SEC1 encoding of a point of P-384, as
/// PublicKey::from_sec1_bytes decides.
pub uninterp spec fn p384_sec1_valid(bytes: Seq<u8>) -> bool;

/// Whether `secret` is the big-endian encoding of a P-384 secret scalar, as
/// SecretKey::from_slice decides.
pub uninterp spec fn p384_secret_valid(secret: Seq<u8>) -> bool;

/// The uncompressed SEC1 encoding of the public key of `secret`.
pub uninterp spec fn p384_public_of(secret: Seq<u8>) -> Seq<u8>;

/// The raw Diffie-Hellman secret of `secret` and the encoded point `remote`.
pub uninterp spec fn p384_ecdh(secret: Seq<u8>, remote: Seq<u8>) -> Seq<u8>;

/// Whether `bytes` is the uncompressed encoding of a point of P-384, the one
/// form that the protocol exchanges.
pub open spec fn is_uncompressed_point(bytes: Seq<u8>) -> bool {
    &&& bytes.len() == PUBLIC_KEY_LEN
    &&& bytes[0] == UNCOMPRESSED_TAG
    &&& p384_sec1_valid(bytes)
}

/// Relies on p384::SecretKey::random with the OS random source, serialised
/// by SecretKey::to_bytes: 48 bytes that SecretKey::from_slice accepts.
#[verifier::external_body]
fn p384_random_secret() -> (r: Vec<u8>)
    ensures
        r@.len() == SECRET_LEN,
        p384_secret_valid(r@),
{
    SecretKey::random(&mut aes_gcm::aead::OsRng).to_bytes().to_vec()
}

/// Relies on SecretKey::public_key and EncodedPoint::from, which P-384 encodes
/// uncompressed: the tag byte 4, then the two 48-byte coordinates.
#[verifier::external_body]
fn p384_public_key_bytes(secret: &[u8]) -> (r: Vec<u8>)
    requires
        p384_secret_valid(secret@),
    ensures
        r@ == p384_public_of(secret@),
        r@.len() == PUBLIC_KEY_LEN,
        r@[0] == UNCOMPRESSED_TAG,
{
    let secret_key = SecretKey::from_slice(secret).unwrap();
    EncodedPoint::from(secret_key.public_key()).as_bytes().to_vec()
}

/// Relies on p384::PublicKey::from_sec1_bytes: it accepts exactly the SEC1
/// encodings of points of the curve.
#[verifier::external_body]
fn p384_check_public_key(bytes: &[u8]) -> (r: bool)
    ensures
        r == p384_sec1_valid(bytes@),
{
    PublicKey::from_sec1_bytes(bytes).is_ok()
}

/// Relies on p384::ecdh::diffie_hellman and SharedSecret::raw_secret_bytes:
/// the x-coordinate of the shared point, 48 bytes.
#[verifier::external_body]
fn p384_diffie_hellman(secret: &[u8], remote: &[u8]) -> (r: Vec<u8>)
    requires
        p384_secret_valid(secret@),
        p384_sec1_valid(remote@),
    ensures
        r@ == p384_ecdh(secret@, remote@),
        r@.len() == SHARED_SECRET_LEN,
{
    let secret_key = SecretKey::from_slice(secret).unwrap();
    let remote_key = PublicKey::from_sec1_bytes(remote).unwrap();
    diffie_hellman(secret_key.to_nonzero_scalar(), remote_key.as_affine()).raw_secret_bytes().to_vec()
}

/// Which end of the transfer this process is.
#[derive(Debug, Clone, Copy, PartialEq, Eq, Structural)]
pub enum Role {
    Sender,
    Receiver,
}

/// A session whose ephemeral key pair has been generated and whose public key
/// is to be sent to the peer.
pub struct Handshake {
    role: Role,
    local_secret: Vec<u8>,
    local_public: Vec<u8>,
}

/// A session in which both public keys are known and await the operators'
/// confirmation. Confirming consumes it, so its secret serves one session only.
pub struct KeysExchanged {
    role: Role,
    local_secret: Vec<u8>,
    local_public: Vec<u8>,
    remote_public: Vec<u8>,
}

impl Handshake {
    pub closed spec fn role(&self) -> Role {
        self.role
    }

    /// The local secret scalar, which never leaves the session.
    pub closed spec fn local_secret(&self) -> Seq<u8> {
        self.local_secret@
    }

    /// The secret is a scalar of the curve and the public key is its encoding.
    pub closed spec fn wf(&self) -> bool {
        &&& p384_secret_valid(self.local_secret@)
        &&& self.local_public@ == p384_public_of(self.local_secret@)
        &&& self.local_public@.len() == PUBLIC_KEY_LEN
        &&& self.local_public@[0] == UNCOMPRESSED_TAG
    }

    /// The encoded local public key.
    pub closed spec fn local_key(&self) -> Seq<u8> {
        self.local_public@
    }

    /// Starts a session with a fresh ephemeral key pair.
    pub fn start(role: Role) -> (r: Handshake)
        ensures
            r.wf(),
            r.role() == role,
            r.local_key() == p384_public_of(r.local_secret()),
            r.local_key().len() == PUBLIC_KEY_LEN,
            r.local_key()[0] == UNCOMPRESSED_TAG,
    {
        let local_secret = p384_random_secret();
        let local_public = p384_public_key_bytes(local_secret.as_slice());
        Handshake { role, local_secret, local_public }
    }

    /// The bytes to write to the peer: the encoded local public key.
    pub fn local_public_key(&self) -> (r: &[u8])
        ensures
            r@ == self.local_key(),
    {
        self.local_public.as_slice()
    }

    /// Takes the peer's public key as read from the connection; it must be the
    /// uncompressed encoding of a point of the curve.
    pub fn receive_remote_key(self, remote: &[u8]) -> (r: Result<KeysExchanged, HandshakeError>)
        requires
            self.wf(),
        ensures
            r is Ok <==> is_uncompressed_point(remote@),
            r matches Err(e) ==> e == HandshakeError::MalformedRemoteKey,
            r matches Ok(k) ==> k.role() == self.role() && k.local_key() == self.local_key()
                && k.remote_key() == remote@ && k.local_secret() == self.local_secret() && k.wf(),
    {
        if remote.len() != PUBLIC_KEY_LEN || remote[0] != UNCOMPRESSED_TAG {
            return Err(HandshakeError::MalformedRemoteKey);
        }
        if !p384_check_public_key(remote) {
            return Err(HandshakeError::MalformedRemoteKey);
        }
        let remote_public = copy_range(remote, 0, remote.len());
        assert(remote_public@ =~= remote@);
        Ok(
            KeysExchanged {
                role: self.role,
                local_secret: self.local_secret,
                local_public: self.local_public,
                remote_public,
            },
        )
    }
}

impl KeysExchanged {
    pub closed spec fn role(&self) -> Role {
        self.role
    }

    /// The local secret scalar, which never leaves the session.
    pub closed spec fn local_secret(&self) -> Seq<u8> {
        self.local_secret@
    }

    /// The local key pair is consistent and the remote key is an uncompressed point.
    pub closed spec fn wf(&self) -> bool {
        &&& p384_secret_valid(self.local_secret@)
        &&& self.local_public@ == p384_public_of(self.local_secret@)
        &&& is_uncompressed_point(self.remote_public@)
    }

    /// The encoded local public key.
    pub closed spec fn local_key(&self) -> Seq<u8> {
        self.local_public@
    }

    /// The encoded public key received from the peer.
    pub closed spec fn remote_key(&self) -> Seq<u8> {
        self.remote_public@
    }

    /// The two keys to show the operator, as (sender's key, receiver's key):
    /// each side fills in its own key and the peer's in the same two places.
    pub fn displayed_keys(&self) -> (r: (Vec<u8>, Vec<u8>))
        ensures
            self.role() == Role::Sender ==> r.0@ == self.local_key() && r.1@ == self.remote_key(),
            self.role() == Role::Receiver ==> r.0@ == self.remote_key() && r.1@
                == self.local_key(),
    {
        match self.role {
            Role::Sender => (self.local_public.clone(), self.remote_public.clone()),
            Role::Receiver => (self.remote_public.clone(), self.local_public.clone()),
        }
    }

    /// Ends the handshake with the operator's answer. Only on confirmation is the
    /// Diffie-Hellman secret computed, and the session key derived from it.
    pub fn confirm(self, accepted: bool) -> (r: Result<SymmetricKey, HandshakeError>)
        requires
            self.wf(),
        ensures
            r is Err <==> !accepted,
            r matches Err(e) ==> e == HandshakeError::Rejected,
            r matches Ok(k) ==> k.wf() && k@ == hkdf_sha256_prk(
                p384_ecdh(self.local_secret(), self.remote_key()),
            ),
    {
        if !accepted {
            return Err(HandshakeError::Rejected);
        }
        let secret = p384_diffie_hellman(self.local_secret.as_slice(), self.remote_public.as_slice());
        Ok(compute_cipher(secret.as_slice()))
    }
}

} // verus!
