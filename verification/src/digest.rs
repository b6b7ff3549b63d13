//! Hashes, key derivation and hex text.

use ring::error::Unspecified;
use vstd::prelude::*;

verus! {

/// The error of `ring`, which carries no details.
#[verifier::external_type_specification]
#[verifier::external_body]
pub struct ExUnspecified(Unspecified);

/// The longest input, in bytes, whose length in bits still fits in 64 bits. The hashes take no
/// longer one.
pub const MAX_DIGEST_INPUT: u64 = 0x1FFF_FFFF_FFFF_FFFF;

/// The longest secret, salt or label that key derivation takes. A hash over any of them, together
/// with the blocks that HMAC puts before it, stays within `MAX_DIGEST_INPUT`.
pub const MAX_HKDF_INPUT: u64 = 0x1000_0000_0000_0000;

/// The SHA-256 digest of a message.
pub uninterp spec fn sha256_digest(data: Seq<u8>) -> Seq<u8>;

/// The SHA-512 digest of a message.
pub uninterp spec fn sha512_digest(data: Seq<u8>) -> Seq<u8>;

/// The output of HKDF (RFC 5869) with HMAC-SHA-512: `len` bytes from the salt, the input keying
/// material and the info string.
pub uninterp spec fn hkdf_sha512_output(
    salt: Seq<u8>,
    secret: Seq<u8>,
    info: Seq<u8>,
    len: nat,
) -> Seq<u8>;

/// `ring::digest::digest` with `SHA256`: the SHA-256 digest of `data`, which has 32 bytes. It
/// panics on longer inputs than the contract admits.
#[verifier::external_body]
pub(crate) fn ring_sha256(data: &[u8]) -> (r: Vec<u8>)
    requires
        data@.len() <= MAX_DIGEST_INPUT,
    ensures
        r@ == sha256_digest(data@),
        r@.len() == 32,
{
    ring::digest::digest(&ring::digest::SHA256, data).as_ref().to_vec()
}

/// `ring::digest::digest` with `SHA512`: the SHA-512 digest of `data`, which has 64 bytes. It
/// panics on longer inputs than the contract admits.
#[verifier::external_body]
pub(crate) fn ring_sha512(data: &[u8]) -> (r: Vec<u8>)
    requires
        data@.len() <= MAX_DIGEST_INPUT,
    ensures
        r@ == sha512_digest(data@),
        r@.len() == 64,
{
    ring::digest::digest(&ring::digest::SHA512, data).as_ref().to_vec()
}

/// Length of derived key material, in the form that `ring` asks for it.
pub struct HkdfLen(pub usize);

impl ring::hkdf::KeyType for HkdfLen {
    fn len(&self) -> (r: usize)
        ensures
            r == self.0,
    {
        self.0
    }
}

/// `ring::hkdf` with `HKDF_SHA512`: `Salt::new`, `Salt::extract`, `Prk::expand` with the one label
/// `info`, and `Okm::fill` of a buffer of the length that was asked for. It fails if and only if
/// `len` is over 255 times the 64 bytes of the digest; otherwise the buffer holds the HKDF output.
#[verifier::external_body]
pub(crate) fn ring_hkdf_sha512(salt: &[u8], secret: &[u8], info: &[u8], len: usize) -> (r: Result<
    Vec<u8>,
    Unspecified,
>)
    requires
        salt@.len() <= MAX_HKDF_INPUT,
        secret@.len() <= MAX_HKDF_INPUT,
        info@.len() <= MAX_HKDF_INPUT,
    ensures
        r is Ok <==> len <= 255 * 64,
        r matches Ok(out) ==> out@.len() == len && out@ == hkdf_sha512_output(
            salt@,
            secret@,
            info@,
            len as nat,
        ),
{
    let prk = ring::hkdf::Salt::new(ring::hkdf::HKDF_SHA512, salt).extract(secret);
    let labels = [info];
    let okm = prk.expand(&labels, HkdfLen(len))?;
    let mut out = vec![0u8; len];
    okm.fill(&mut out)?;
    Ok(out)
}

/// The lower-case hex digit of a number below 16.
pub open spec fn hex_digit(n: int) -> char {
    if n < 10 {
        ('0' as int + n) as char
    } else {
        ('a' as int + n - 10) as char
    }
}

/// The hex text of `data`: two digits per byte, the high one first.
pub open spec fn hex_text(data: Seq<u8>) -> Seq<char> {
    Seq::new(
        2 * data.len(),
        |i: int|
            if i % 2 == 0 {
                hex_digit(data[i / 2] as int / 16)
            } else {
                hex_digit(data[i / 2] as int % 16)
            },
    )
}

/// `hex::encode`: two lower-case hex digits per byte, the high one first.
#[verifier::external_body]
pub(crate) fn hex_encode(data: &[u8]) -> (r: String)
    ensures
        r@ == hex_text(data@),
{
    hex::encode(data)
}

} // verus!
