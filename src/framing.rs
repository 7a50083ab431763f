use vstd::prelude::*;
use crate::error::MessageReceiveError;

verus! {

/// Length in bytes of an AEAD nonce on the wire.
pub const NONCE_LEN: usize = 12;

/// Bytes before the ciphertext: the nonce, then the eight-byte length field.
pub const HEADER_LEN: usize = 20;

/// The eight bytes of `x`, most significant first.
pub open spec fn be_bytes(x: u64) -> Seq<u8> {
    seq![
        (x >> 56u64) as u8,
        (x >> 48u64) as u8,
        (x >> 40u64) as u8,
        (x >> 32u64) as u8,
        (x >> 24u64) as u8,
        (x >> 16u64) as u8,
        (x >> 8u64) as u8,
        x as u8,
    ]
}

/// The number whose big-endian bytes are the first eight of `s`.
pub open spec fn be_value(s: Seq<u8>) -> u64
    recommends
        s.len() >= 8,
{
    ((s[0] as u64) << 56u64) | ((s[1] as u64) << 48u64) | ((s[2] as u64) << 40u64) | ((
    s[3] as u64) << 32u64) | ((s[4] as u64) << 24u64) | ((s[5] as u64) << 16u64) | ((s[6] as u64)
        << 8u64) | (s[7] as u64)
}

/// Reading back the bytes of a number gives the number.
pub proof fn lemma_be_round_trip(x: u64)
    ensures
        be_value(be_bytes(x)) == x,
{
    let s = be_bytes(x);
    let b0 = s[0];
    let b1 = s[1];
    let b2 = s[2];
    let b3 = s[3];
    let b4 = s[4];
    let b5 = s[5];
    let b6 = s[6];
    let b7 = s[7];
    assert(((b0 as u64) << 56u64) | ((b1 as u64) << 48u64) | ((b2 as u64) << 40u64) | ((
    b3 as u64) << 32u64) | ((b4 as u64) << 24u64) | ((b5 as u64) << 16u64) | ((b6 as u64)
        << 8u64) | (b7 as u64) == x) by (bit_vector)
        requires
            b0 == (x >> 56u64) as u8,
            b1 == (x >> 48u64) as u8,
            b2 == (x >> 40u64) as u8,
            b3 == (x >> 32u64) as u8,
            b4 == (x >> 24u64) as u8,
            b5 == (x >> 16u64) as u8,
            b6 == (x >> 8u64) as u8,
            b7 == x as u8,
    ;
}

/// Two eight-byte strings with the same value are the same string.
pub proof fn lemma_be_value_injective(s: Seq<u8>, t: Seq<u8>)
    requires
        s.len() == 8,
        t.len() == 8,
        be_value(s) == be_value(t),
    ensures
        s == t,
{
    lemma_be_bytes_of_value(s);
    lemma_be_bytes_of_value(t);
}

/// The bytes of the value of an eight-byte string are that string.
pub proof fn lemma_be_bytes_of_value(s: Seq<u8>)
    requires
        s.len() == 8,
    ensures
        be_bytes(be_value(s)) == s,
{
    let b0 = s[0];
    let b1 = s[1];
    let b2 = s[2];
    let b3 = s[3];
    let b4 = s[4];
    let b5 = s[5];
    let b6 = s[6];
    let b7 = s[7];
    let v = be_value(s);
    assert((v >> 56u64) as u8 == b0 && (v >> 48u64) as u8 == b1 && (v >> 40u64) as u8 == b2
        && (v >> 32u64) as u8 == b3 && (v >> 24u64) as u8 == b4 && (v >> 16u64) as u8 == b5 && (v
        >> 8u64) as u8 == b6 && v as u8 == b7) by (bit_vector)
        requires
            v == ((b0 as u64) << 56u64) | ((b1 as u64) << 48u64) | ((b2 as u64) << 40u64) | ((
            b3 as u64) << 32u64) | ((b4 as u64) << 24u64) | ((b5 as u64) << 16u64) | ((
            b6 as u64) << 8u64) | (b7 as u64),
    ;
    assert(be_bytes(v) =~= s);
}

/// The big-endian encoding of `x`.
pub fn u64_to_be_bytes(x: u64) -> (r: Vec<u8>)
    ensures
        r@ == be_bytes(x),
{
    let r = vec![
        (x >> 56u64) as u8,
        (x >> 48u64) as u8,
        (x >> 40u64) as u8,
        (x >> 32u64) as u8,
        (x >> 24u64) as u8,
        (x >> 16u64) as u8,
        (x >> 8u64) as u8,
        x as u8,
    ];
    assert(r@ =~= be_bytes(x));
    r
}

/// The number whose big-endian encoding is `s`.
pub fn u64_from_be_bytes(s: &[u8]) -> (r: u64)
    requires
        s@.len() == 8,
    ensures
        r == be_value(s@),
{
    ((s[0] as u64) << 56u64) | ((s[1] as u64) << 48u64) | ((s[2] as u64) << 40u64) | ((
    s[3] as u64) << 32u64) | ((s[4] as u64) << 24u64) | ((s[5] as u64) << 16u64) | ((s[6] as u64)
        << 8u64) | (s[7] as u64)
}

/// The wire form of one message: the nonce, the ciphertext length as eight
/// big-endian bytes, then the ciphertext.
pub open spec fn envelope(nonce: Seq<u8>, ciphertext: Seq<u8>) -> Seq<u8> {
    nonce + be_bytes(ciphertext.len() as u64) + ciphertext
}

/// The length that the length field of `bytes` declares.
pub open spec fn declared_len(bytes: Seq<u8>) -> u64 {
    be_value(bytes.subrange(NONCE_LEN as int, HEADER_LEN as int))
}

/// What reading an envelope from `bytes`, the whole stream, yields: its nonce and
/// ciphertext, or the first field that the bytes cannot supply.
pub open spec fn parse(bytes: Seq<u8>) -> Result<(Seq<u8>, Seq<u8>), MessageReceiveError> {
    if bytes.len() < NONCE_LEN {
        Err(MessageReceiveError::Nonce)
    } else if bytes.len() < HEADER_LEN {
        Err(MessageReceiveError::Size)
    } else if bytes.len() - HEADER_LEN != declared_len(bytes) {
        Err(MessageReceiveError::Body)
    } else {
        Ok((bytes.subrange(0, NONCE_LEN as int), bytes.subrange(HEADER_LEN as int, bytes.len() as int)))
    }
}

/// Reading back an envelope gives its nonce and ciphertext.
pub proof fn lemma_envelope_round_trip(nonce: Seq<u8>, ciphertext: Seq<u8>)
    requires
        nonce.len() == NONCE_LEN,
        ciphertext.len() <= u64::MAX,
    ensures
        parse(envelope(nonce, ciphertext)) == Ok::<(Seq<u8>, Seq<u8>), MessageReceiveError>((nonce, ciphertext)),
{
    let e = envelope(nonce, ciphertext);
    lemma_be_round_trip(ciphertext.len() as u64);
    assert(e.subrange(NONCE_LEN as int, HEADER_LEN as int) =~= be_bytes(ciphertext.len() as u64));
    assert(e.subrange(0, NONCE_LEN as int) =~= nonce);
    assert(e.subrange(HEADER_LEN as int, e.len() as int) =~= ciphertext);
}

/// A stream whose length field declares a length other than the number of bytes
/// that follow it fails with a body error.
pub proof fn lemma_length_mismatch_is_body_error(bytes: Seq<u8>)
    requires
        bytes.len() >= HEADER_LEN,
        bytes.len() - HEADER_LEN != declared_len(bytes),
    ensures
        parse(bytes) == Err::<(Seq<u8>, Seq<u8>), MessageReceiveError>(MessageReceiveError::Body),
{
}

/// Changing any one byte of the length field of an envelope makes it fail with a
/// body error.
pub proof fn lemma_length_field_tamper(nonce: Seq<u8>, ciphertext: Seq<u8>, i: int, b: u8)
    requires
        nonce.len() == NONCE_LEN,
        ciphertext.len() <= u64::MAX,
        NONCE_LEN <= i < HEADER_LEN,
        envelope(nonce, ciphertext)[i] != b,
    ensures
        parse(envelope(nonce, ciphertext).update(i, b)) == Err::<(Seq<u8>, Seq<u8>), MessageReceiveError>(
            MessageReceiveError::Body,
        ),
{
    let e = envelope(nonce, ciphertext);
    let t = e.update(i, b);
    let field = e.subrange(NONCE_LEN as int, HEADER_LEN as int);
    let tampered = t.subrange(NONCE_LEN as int, HEADER_LEN as int);
    lemma_be_round_trip(ciphertext.len() as u64);
    assert(field =~= be_bytes(ciphertext.len() as u64));
    assert(tampered[i - NONCE_LEN] != field[i - NONCE_LEN]);
    if be_value(tampered) == be_value(field) {
        lemma_be_value_injective(tampered, field);
    }
}

/// Builds the envelope of `ciphertext` under `nonce`.
pub fn write_envelope(nonce: &[u8], ciphertext: &[u8]) -> (r: Vec<u8>)
    requires
        nonce@.len() == NONCE_LEN,
    ensures
        r@ == envelope(nonce@, ciphertext@),
{
    let mut r: Vec<u8> = Vec::new();
    let len_bytes = u64_to_be_bytes(ciphertext.len() as u64);
    append_bytes(&mut r, nonce);
    append_bytes(&mut r, len_bytes.as_slice());
    append_bytes(&mut r, ciphertext);
    assert(r@ =~= envelope(nonce@, ciphertext@));
    r
}

/// Appends the bytes of `src` to `dst`.
fn append_bytes(dst: &mut Vec<u8>, src: &[u8])
    ensures
        final(dst)@ == old(dst)@ + src@,
{
    let mut i: usize = 0;
    while i < src.len()
        invariant
            i <= src@.len(),
            dst@ == old(dst)@ + src@.subrange(0, i as int),
        decreases src@.len() - i,
    {
        dst.push(src[i]);
        i = i + 1;
        assert(src@.subrange(0, i as int) =~= src@.subrange(0, i - 1) .push(src@[i - 1]));
    }
    assert(src@.subrange(0, src@.len() as int) =~= src@);
}

/// The bytes `src[lo..hi]` as a vector.
pub(crate) fn copy_range(src: &[u8], lo: usize, hi: usize) -> (r: Vec<u8>)
    requires
        lo <= hi <= src@.len(),
    ensures
        r@ == src@.subrange(lo as int, hi as int),
{
    let mut r: Vec<u8> = Vec::new();
    let mut i: usize = lo;
    while i < hi
        invariant
            lo <= i <= hi,
            hi <= src@.len(),
            r@ == src@.subrange(lo as int, i as int),
        decreases hi - i,
    {
        r.push(src[i]);
        i = i + 1;
        assert(r@ =~= src@.subrange(lo as int, i as int));
    }
    r
}

/// The length that the length field of a received header declares.
pub fn read_u64(header: &[u8]) -> (r: u64)
    requires
        header@.len() >= HEADER_LEN,
    ensures
        r == declared_len(header@),
{
    let field = copy_range(header, NONCE_LEN, HEADER_LEN);
    u64_from_be_bytes(field.as_slice())
}

/// Reads an envelope from `bytes`, all that the stream delivered: the nonce and
/// the ciphertext, or the field that could not be read.
pub fn read_envelope(bytes: &[u8]) -> (r: Result<(Vec<u8>, Vec<u8>), MessageReceiveError>)
    ensures
        match (r, parse(bytes@)) {
            (Ok((n, c)), Ok((sn, sc))) => n@ == sn && c@ == sc,
            (Err(e), Err(se)) => e == se,
            _ => false,
        },
{
    if bytes.len() < NONCE_LEN {
        return Err(MessageReceiveError::Nonce);
    }
    if bytes.len() < HEADER_LEN {
        return Err(MessageReceiveError::Size);
    }
    let declared = read_u64(bytes);
    if (bytes.len() - HEADER_LEN) as u64 != declared {
        return Err(MessageReceiveError::Body);
    }
    let nonce = copy_range(bytes, 0, NONCE_LEN);
    let ciphertext = copy_range(bytes, HEADER_LEN, bytes.len());
    Ok((nonce, ciphertext))
}

} // verus!
