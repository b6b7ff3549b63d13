//! Measurements and certificate IDs, as the Open Profile for DICE defines them.

use vstd::prelude::*;
use vstd::utf8::encode_utf8;

use crate::cbor::big_endian;
use crate::digest::{
    hex_digit, hex_encode, hex_text, hkdf_sha512_output, ring_hkdf_sha512, ring_sha256,
    ring_sha512, sha256_digest, sha512_digest, MAX_DIGEST_INPUT, MAX_HKDF_INPUT,
};
use crate::error::{Error, RpcErrorCode};

verus! {

/// Length of a DICE certificate ID, which is hex encoded into the issuer and subject fields.
pub const DICE_ID_LEN: usize = 20;

/// Length of the DICE hash fields.
pub const DICE_HASH_LEN: usize = 64;

/// Salt used when deriving DICE certificate IDs, from the Open Profile for DICE reference
/// implementation (`kIdSalt` in `open-dice/src/dice.c`).
pub const DICE_ID_SALT: [u8; 64] = [
    0xDB, 0xDB, 0xAE, 0xBC, 0x80, 0x20, 0xDA, 0x9F, 0xF0, 0xDD, 0x5A, 0x24, 0xC8, 0x3A, 0xA5, 0xA5,
    0x42, 0x86, 0xDF, 0xC2, 0x63, 0x03, 0x1E, 0x32, 0x9B, 0x4D, 0xA1, 0x48, 0x43, 0x06, 0x59, 0xFE,
    0x62, 0xCD, 0xB5, 0xB7, 0xE1, 0xE0, 0x0F, 0xC6, 0x80, 0x30, 0x67, 0x11, 0xEB, 0x44, 0x4A, 0xF7,
    0x72, 0x09, 0x35, 0x94, 0x96, 0xFC, 0xFF, 0x1D, 0xB9, 0x52, 0x0B, 0xA5, 0x1C, 0x7B, 0x29, 0xEA,
];

/// `digest` in a hash field: cut to the field's length, or followed by zeros.
pub open spec fn hash_field(digest: Seq<u8>) -> Seq<u8> {
    Seq::new(
        64,
        |i: int|
            if i < digest.len() {
                digest[i]
            } else {
                0
            },
    )
}

/// The measurement of `data`: its SHA-256 digest in a hash field.
pub open spec fn measured(data: Seq<u8>) -> Seq<u8> {
    hash_field(sha256_digest(data))
}

/// `id` with the top bit of its first byte cleared.
pub open spec fn positive(id: Seq<u8>) -> Seq<u8> {
    id.update(0, (id[0] % 128) as u8)
}

/// The certificate ID of the key whose raw public key is `pub_key`, in hex.
pub open spec fn certificate_id(pub_key: Seq<u8>) -> Seq<char> {
    hex_text(positive(hkdf_sha512_output(DICE_ID_SALT@, pub_key, encode_utf8("ID"@), 20)))
}

/// `id` has two lower-case hex digits for each byte of a certificate ID, and reads as a positive
/// number: its first digit is below 8.
pub open spec fn is_positive_hex(id: Seq<char>) -> bool {
    &&& id.len() == 2 * DICE_ID_LEN
    &&& forall|i: int|
        0 <= i < id.len() ==> '0' <= #[trigger] id[i] <= '9' || 'a' <= id[i] <= 'f'
    &&& '0' <= id[0] <= '7'
}

/// The number that a lower-case hex digit stands for; none for any other character.
pub open spec fn digit_value(c: char) -> int {
    if '0' <= c <= '9' {
        c as int - '0' as int
    } else if 'a' <= c <= 'f' {
        c as int - 'a' as int + 10
    } else {
        -1
    }
}

/// The byte that two lower-case hex digits of `text` stand for, those for byte `i`.
pub open spec fn byte_value(text: Seq<char>, i: int) -> int {
    16 * digit_value(text[2 * i]) + digit_value(text[2 * i + 1])
}

/// A digest is placed in a hash field of 64 bytes as it stands, as far as it fits, and followed by
/// zeros.
pub proof fn law_hash_fields_hold_the_digest(digest: Seq<u8>)
    ensures
        hash_field(digest).len() == 64,
        digest.len() <= 64 ==> hash_field(digest) == digest + Seq::new(
            (64 - digest.len()) as nat,
            |i: int| 0u8,
        ),
        digest.len() > 64 ==> hash_field(digest) == digest.subrange(0, 64),
{
}

/// A measurement is the SHA-256 digest of all of the data, in a hash field.
pub proof fn law_measurements_are_sha256_digests(data: Seq<u8>)
    requires
        sha256_digest(data).len() == 32,
    ensures
        measured(data) == sha256_digest(data) + Seq::new(32, |i: int| 0u8),
{
}

/// A certificate ID is the hex text of the HKDF-SHA-512 output for the whole of the public key, with
/// the DICE salt and the info `ID`. Only the top bit of the first byte is cleared.
pub proof fn law_certificate_ids_are_derived_from_the_whole_key(pub_key: Seq<u8>)
    ensures
        ({
            let id = certificate_id(pub_key);
            let output = hkdf_sha512_output(DICE_ID_SALT@, pub_key, encode_utf8("ID"@), 20);
            &&& output.len() > 0 ==> id.len() == 2 * output.len()
            &&& output.len() > 0 ==> byte_value(id, 0) == output[0] % 128
            &&& forall|i: int|
                1 <= i < output.len() ==> #[trigger] byte_value(id, i) == output[i]
        }),
{
    let id = certificate_id(pub_key);
    let output = hkdf_sha512_output(DICE_ID_SALT@, pub_key, encode_utf8("ID"@), 20);
    assert forall|i: int| 0 <= i < output.len() implies #[trigger] byte_value(id, i) == positive(
        output,
    )[i] by {
        let b = positive(output)[i];
        lemma_hex_digit_value(b as int / 16);
        lemma_hex_digit_value(b as int % 16);
        assert((2 * i) / 2 == i && (2 * i + 1) / 2 == i);
        assert(id[2 * i] == hex_digit(b as int / 16));
        assert(id[2 * i + 1] == hex_digit(b as int % 16));
    }
}

proof fn lemma_hex_digit_value(n: int)
    requires
        0 <= n < 16,
    ensures
        digit_value(hex_digit(n)) == n,
{
}

/// `n` in four bytes, most significant first.
pub(crate) fn be_bytes(n: u32) -> (r: [u8; 4])
    ensures
        r@ == big_endian(n as nat, 4),
{
    proof {
        reveal_with_fuel(big_endian, 5);
    }
    [
        (n / 0x100_0000) as u8,
        (n / 0x1_0000 % 0x100) as u8,
        (n / 0x100 % 0x100) as u8,
        (n % 0x100) as u8,
    ]
}

/// Place a digest in the 64-byte DICE hash field, zero padded as the reference implementation
/// leaves the unused trailing bytes.
pub fn pad_measurement(digest: &[u8]) -> (r: Vec<u8>)
    ensures
        r@ == hash_field(digest@),
        r@.len() == 64,
        forall|i: int|
            0 <= i < 64 ==> #[trigger] r@[i] == if i < digest@.len() {
                digest@[i]
            } else {
                0
            },
{
    let mut hash: Vec<u8> = vec![0u8; DICE_HASH_LEN];
    let len: usize = if digest.len() < DICE_HASH_LEN {
        digest.len()
    } else {
        DICE_HASH_LEN
    };
    for i in 0..len
        invariant
            len <= digest@.len(),
            len <= 64,
            len == 64 || len == digest@.len(),
            hash@.len() == 64,
            forall|j: int| 0 <= j < i ==> hash@[j] == digest@[j],
            forall|j: int| i <= j < 64 ==> hash@[j] == 0,
    {
        hash[i] = digest[i];
    }
    hash
}

/// Measure `data` the way Android boot stages do: a SHA-256 digest, carried in the 64-byte hash
/// field that the Open Profile for DICE reference implementation defines.
pub fn measurement(data: &[u8]) -> (r: Vec<u8>)
    requires
        data@.len() <= MAX_DIGEST_INPUT,
    ensures
        r@ == measured(data@),
        r@.len() == 64,
        r@.subrange(0, 32) == sha256_digest(data@),
        forall|i: int| 32 <= i < 64 ==> #[trigger] r@[i] == 0,
{
    pad_measurement(ring_sha256(data).as_slice())
}

/// Return the SHA-512 digest of `data`, which is how the Open Profile for DICE hashes the
/// configuration descriptor.
pub fn sha512(data: &[u8]) -> (r: Vec<u8>)
    requires
        data@.len() <= MAX_DIGEST_INPUT,
    ensures
        r@ == sha512_digest(data@),
        r@.len() == 64,
{
    ring_sha512(data)
}

/// Derive the DICE certificate ID of a public key, hex encoded as it appears in the issuer and
/// subject fields of a chain entry. Matches `DiceDeriveCdiCertificateId` in the Open Profile for
/// DICE reference implementation.
pub fn dice_id(pub_key: &[u8]) -> (r: Result<String, Error>)
    requires
        pub_key@.len() <= MAX_HKDF_INPUT,
    ensures
        r is Ok,
        r->Ok_0@ == certificate_id(pub_key@),
        is_positive_hex(r->Ok_0@),
        // Two lower-case hex digits give each byte of the output, without its top bit.
        hkdf_sha512_output(DICE_ID_SALT@, pub_key@, encode_utf8("ID"@), 20).len() == 20,
        r->Ok_0@.len() == 40,
        byte_value(r->Ok_0@, 0) == hkdf_sha512_output(
            DICE_ID_SALT@,
            pub_key@,
            encode_utf8("ID"@),
            20,
        )[0] % 128,
        forall|i: int|
            1 <= i < 20 ==> #[trigger] byte_value(r->Ok_0@, i) == hkdf_sha512_output(
                DICE_ID_SALT@,
                pub_key@,
                encode_utf8("ID"@),
                20,
            )[i],
{
    let info = "ID".as_bytes();
    proof {
        reveal_strlit("ID");
        vstd::utf8::is_ascii_chars_encode_utf8("ID"@);
    }
    let salt: [u8; 64] = DICE_ID_SALT;
    let mut id = match ring_hkdf_sha512(salt.as_slice(), pub_key, info, DICE_ID_LEN) {
        Ok(id) => id,
        Err(_) => {
            return Err(
                Error::Rpc(
                    RpcErrorCode::Failed,
                    "failed to derive DICE certificate id.".to_owned(),
                ),
            );
        },
    };
    let first: u8 = id[0];
    assert(first & 0x7F == first % 128) by (bit_vector);
    // Clear the top bit to keep the ID positive, as the reference implementation does.
    id.set(0, first & 0x7F);
    proof {
        law_certificate_ids_are_derived_from_the_whole_key(pub_key@);
    }
    Ok(hex_encode(id.as_slice()))
}

} // verus!
