use vstd::prelude::*;
use crate::cipher::{
    aes256gcm_seal, is_sealed, open, random_nonce, seal, SymmetricKey, MAX_PLAINTEXT_LEN,
};
use crate::error::{MessageReceiveError, MessageSendError};
use crate::framing::{envelope, parse, read_envelope, write_envelope, NONCE_LEN};

verus! {

/// The envelope that carries `payload` encrypted under `key` and `nonce`.
pub open spec fn encoded(key: Seq<u8>, nonce: Seq<u8>, payload: Seq<u8>) -> Seq<u8> {
    envelope(nonce, aes256gcm_seal(key, nonce, payload))
}

/// Encrypts `payload` under `key` and `nonce` and frames it for the wire.
pub fn encode_message(key: &SymmetricKey, nonce: &[u8], payload: &[u8]) -> (r: Result<
    Vec<u8>,
    MessageSendError,
>)
    requires
        key.wf(),
        nonce@.len() == NONCE_LEN,
    ensures
        r is Err <==> payload@.len() > MAX_PLAINTEXT_LEN,
        r matches Err(e) ==> e == MessageSendError::Encrypt,
        r matches Ok(env) ==> env@ == encoded(key@, nonce@, payload@),
{
    match seal(key, nonce, payload) {
        Some(ciphertext) => Ok(write_envelope(nonce, ciphertext.as_slice())),
        None => Err(MessageSendError::Encrypt),
    }
}

/// Encrypts `payload` under `key` with a fresh random nonce and frames it for
/// the wire; the nonce is the envelope's first bytes.
pub fn send_message(key: &SymmetricKey, payload: &[u8]) -> (r: Result<Vec<u8>, MessageSendError>)
    requires
        key.wf(),
    ensures
        r is Err <==> payload@.len() > MAX_PLAINTEXT_LEN,
        r matches Err(e) ==> e == MessageSendError::Encrypt,
        r matches Ok(env) ==> env@.len() >= NONCE_LEN && env@ == encoded(
            key@,
            env@.subrange(0, NONCE_LEN as int),
            payload@,
        ),
{
    let nonce = random_nonce();
    let r = encode_message(key, nonce.as_slice(), payload);
    if let Ok(env) = &r {
        assert(env@.subrange(0, NONCE_LEN as int) =~= nonce@);
    }
    r
}

/// The sender's step once the session key is agreed: the archive of the path to
/// send (`None` when packaging failed) becomes the envelope to write.
pub fn send(key: &SymmetricKey, archive: Option<Vec<u8>>) -> (r: Result<Vec<u8>, MessageSendError>)
    requires
        key.wf(),
    ensures
        archive is None ==> r == Err::<Vec<u8>, MessageSendError>(MessageSendError::Zip),
        archive matches Some(p) ==> {
            &&& (r is Err <==> p@.len() > MAX_PLAINTEXT_LEN)
            &&& (r matches Err(e) ==> e == MessageSendError::Encrypt)
            &&& (r matches Ok(env) ==> env@.len() >= NONCE_LEN && env@ == encoded(
                key@,
                env@.subrange(0, NONCE_LEN as int),
                p@,
            ))
        },
{
    match archive {
        Some(payload) => send_message(key, payload.as_slice()),
        None => Err(MessageSendError::Zip),
    }
}

/// Reads and decrypts one message from `bytes`, all that the stream delivered.
/// The envelope of any admissible payload under this key gives that payload back.
pub fn receive_message(key: &SymmetricKey, bytes: &[u8]) -> (r: Result<
    Vec<u8>,
    MessageReceiveError,
>)
    requires
        key.wf(),
    ensures
        match parse(bytes@) {
            Err(e) => r == Err::<Vec<u8>, MessageReceiveError>(e),
            Ok((n, c)) => {
                &&& (r is Err <==> r == Err::<Vec<u8>, MessageReceiveError>(
                    MessageReceiveError::Decrypt,
                ))
                &&& (r is Err ==> !is_sealed(key@, n, c))
                &&& (r matches Ok(p) ==> (p@.len() <= MAX_PLAINTEXT_LEN ==> aes256gcm_seal(
                    key@,
                    n,
                    p@,
                ) == c))
            },
        },
        forall|n: Seq<u8>, p: Seq<u8>|
            n.len() == NONCE_LEN && p.len() <= MAX_PLAINTEXT_LEN && bytes@ == #[trigger] encoded(
                key@,
                n,
                p,
            ) ==> (r matches Ok(q) && q@ == p),
{
    let total = bytes.len();
    let r = match read_envelope(bytes) {
        Err(e) => Err(e),
        Ok((nonce, ciphertext)) => match open(key, nonce.as_slice(), ciphertext.as_slice()) {
            Some(p) => Ok(p),
            None => Err(MessageReceiveError::Decrypt),
        },
    };
    assert forall|n: Seq<u8>, p: Seq<u8>|
        n.len() == NONCE_LEN && p.len() <= MAX_PLAINTEXT_LEN && bytes@ == #[trigger] encoded(
            key@,
            n,
            p,
        ) implies (r matches Ok(q) && q@ == p) by {
        let c = aes256gcm_seal(key@, n, p);
        assert(bytes@.len() == total);
        assert(c.len() <= bytes@.len());
        crate::framing::lemma_envelope_round_trip(n, c);
        assert(is_sealed(key@, n, c));
    }
    r
}

} // verus!
