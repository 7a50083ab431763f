use vstd::prelude::*;
use aes_gcm::aead::{Aead, AeadCore, KeyInit, OsRng};
use aes_gcm::{Aes256Gcm, Key, Nonce};
use hkdf::Hkdf;

verus! {

/// Length in bytes of a session key.
pub const KEY_LEN: usize = 32;

/// The largest plaintext that AES-256-GCM encrypts, in bytes.
pub const MAX_PLAINTEXT_LEN: u64 = 68719476736;

/// Bytes that encryption adds to a plaintext: the authentication tag.
pub const TAG_LEN: usize = 16;

/// The AES-256-GCM ciphertext (with its tag appended) of `plaintext`
/// under `key` and `nonce`, with no associated data.
pub uninterp spec fn aes256gcm_seal(key: Seq<u8>, nonce: Seq<u8>, plaintext: Seq<u8>) -> Seq<u8>;

/// The HKDF-SHA256 pseudorandom key extracted from `ikm` with no salt.
pub uninterp spec fn hkdf_sha256_prk(ikm: Seq<u8>) -> Seq<u8>;

/// Whether some admissible plaintext seals to `ciphertext` under `key` and `nonce`.
pub open spec fn is_sealed(key: Seq<u8>, nonce: Seq<u8>, ciphertext: Seq<u8>) -> bool {
    exists|p: Seq<u8>|
        p.len() <= MAX_PLAINTEXT_LEN && #[trigger] aes256gcm_seal(key, nonce, p) == ciphertext
}

/// The symmetric key of one session.
pub struct SymmetricKey {
    bytes: Vec<u8>,
}

impl View for SymmetricKey {
    type V = Seq<u8>;

    closed spec fn view(&self) -> Seq<u8> {
        self.bytes@
    }
}

impl SymmetricKey {
    /// A key is exactly `KEY_LEN` bytes long.
    pub open spec fn wf(&self) -> bool {
        self@.len() == KEY_LEN
    }

    /// A key holding `bytes`, if they have the length of a key.
    pub fn from_bytes(bytes: Vec<u8>) -> (r: Option<SymmetricKey>)
        ensures
            r is Some <==> bytes@.len() == KEY_LEN,
            r matches Some(k) ==> k@ == bytes@ && k.wf(),
    {
        if bytes.len() == KEY_LEN {
            Some(SymmetricKey { bytes })
        } else {
            None
        }
    }

    /// The raw key bytes.
    pub fn as_bytes(&self) -> (r: &[u8])
        ensures
            r@ == self@,
    {
        self.bytes.as_slice()
    }
}

/// Relies on hkdf::Hkdf::<Sha256>::extract with no salt: the pseudorandom key,
/// one SHA-256 output (32 bytes).
#[verifier::external_body]
fn hkdf_extract(ikm: &[u8]) -> (r: Vec<u8>)
    ensures
        r@ == hkdf_sha256_prk(ikm@),
        r@.len() == KEY_LEN,
{
    Hkdf::<sha2::Sha256>::extract(None, ikm).0.to_vec()
}

/// Derives the session key from the raw bytes of a shared secret: one
/// HKDF-SHA256 extraction, with no salt.
pub fn compute_cipher(secret: &[u8]) -> (r: SymmetricKey)
    ensures
        r@ == hkdf_sha256_prk(secret@),
        r.wf(),
{
    SymmetricKey { bytes: hkdf_extract(secret) }
}

/// Relies on aes_gcm::Aes256Gcm's Aead::encrypt with empty associated data:
/// it fails only on a plaintext over 2^36 bytes, and appends a 16-byte tag.
#[verifier::external_body]
fn aes256gcm_encrypt(key: &[u8], nonce: &[u8], plaintext: &[u8]) -> (r: Option<Vec<u8>>)
    requires
        key@.len() == KEY_LEN,
        nonce@.len() == 12,
    ensures
        r is Some <==> plaintext@.len() <= MAX_PLAINTEXT_LEN,
        r matches Some(c) ==> c@ == aes256gcm_seal(key@, nonce@, plaintext@) && c@.len()
            == plaintext@.len() + TAG_LEN,
{
    let cipher = Aes256Gcm::new(Key::<Aes256Gcm>::from_slice(key));
    cipher.encrypt(Nonce::from_slice(nonce), plaintext).ok()
}

/// Relies on aes_gcm::Aes256Gcm's Aead::decrypt with empty associated data:
/// it succeeds exactly on a ciphertext whose tag verifies, and then returns the
/// plaintext that encrypts to it.
#[verifier::external_body]
fn aes256gcm_decrypt(key: &[u8], nonce: &[u8], ciphertext: &[u8]) -> (r: Option<Vec<u8>>)
    requires
        key@.len() == KEY_LEN,
        nonce@.len() == 12,
    ensures
        r matches Some(p) ==> p@.len() + TAG_LEN == ciphertext@.len() && (p@.len()
            <= MAX_PLAINTEXT_LEN ==> aes256gcm_seal(key@, nonce@, p@) == ciphertext@),
        r is None ==> !is_sealed(key@, nonce@, ciphertext@),
        r matches Some(q) ==> forall|p: Seq<u8>|
            p.len() <= MAX_PLAINTEXT_LEN && #[trigger] aes256gcm_seal(key@, nonce@, p)
                == ciphertext@ ==> q@ == p,
{
    let cipher = Aes256Gcm::new(Key::<Aes256Gcm>::from_slice(key));
    cipher.decrypt(Nonce::from_slice(nonce), ciphertext).ok()
}

/// Relies on AeadCore::generate_nonce with the OS random source: twelve random bytes.
#[verifier::external_body]
fn aes256gcm_random_nonce() -> (r: Vec<u8>)
    ensures
        r@.len() == 12,
{
    Aes256Gcm::generate_nonce(&mut OsRng).to_vec()
}

/// Encrypts `plaintext` under `key` and `nonce`; `None` when the plaintext is
/// longer than AES-256-GCM admits.
pub fn seal(key: &SymmetricKey, nonce: &[u8], plaintext: &[u8]) -> (r: Option<Vec<u8>>)
    requires
        key.wf(),
        nonce@.len() == 12,
    ensures
        r is Some <==> plaintext@.len() <= MAX_PLAINTEXT_LEN,
        r matches Some(c) ==> c@ == aes256gcm_seal(key@, nonce@, plaintext@) && c@.len()
            == plaintext@.len() + TAG_LEN,
{
    aes256gcm_encrypt(key.as_bytes(), nonce, plaintext)
}

/// Decrypts and authenticates `ciphertext` under `key` and `nonce`.
pub fn open(key: &SymmetricKey, nonce: &[u8], ciphertext: &[u8]) -> (r: Option<Vec<u8>>)
    requires
        key.wf(),
        nonce@.len() == 12,
    ensures
        r matches Some(p) ==> p@.len() + TAG_LEN == ciphertext@.len() && (p@.len()
            <= MAX_PLAINTEXT_LEN ==> aes256gcm_seal(key@, nonce@, p@) == ciphertext@),
        r is None ==> !is_sealed(key@, nonce@, ciphertext@),
        r matches Some(q) ==> forall|p: Seq<u8>|
            p.len() <= MAX_PLAINTEXT_LEN && #[trigger] aes256gcm_seal(key@, nonce@, p)
                == ciphertext@ ==> q@ == p,
{
    aes256gcm_decrypt(key.as_bytes(), nonce, ciphertext)
}

/// A fresh random nonce.
pub fn random_nonce() -> (r: Vec<u8>)
    ensures
        r@.len() == 12,
{
    aes256gcm_random_nonce()
}

} // verus!
