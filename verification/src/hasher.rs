use vstd::prelude::*;
use crate::writer::spec_header;
use crate::writer::prepend_header_to_blob;

verus! {

/// The SHA-1 digest of a byte string. The algorithm is fixed and its result
/// depends on the input bytes alone; its definition is left to the hashing
/// library that computes it.
pub uninterp spec fn sha1_of(data: Seq<u8>) -> Seq<u8>;

/// Relies on openssl's sha::sha1: the one-shot SHA-1 digest of the input,
/// always 20 bytes, a function of the input bytes alone.
#[verifier::external_body]
fn sha1_digest(data: &[u8]) -> (r: [u8; 20])
    ensures
        r@ == sha1_of(data@),
        r@.len() == 20,
{
    openssl::sha::sha1(data)
}

/// The lowercase hexadecimal digit of a value below 16.
pub open spec fn spec_hex_digit(v: u8) -> u8 {
    if v < 10 {
        (48 + v) as u8
    } else {
        (87 + v) as u8
    }
}

/// The lowercase hexadecimal rendering of a byte string: two digits for each
/// byte, high nibble first.
pub open spec fn spec_hex(data: Seq<u8>) -> Seq<u8> {
    Seq::new(
        data.len() * 2,
        |i: int|
            if i % 2 == 0 {
                spec_hex_digit(data[i / 2] / 16)
            } else {
                spec_hex_digit(data[i / 2] % 16)
            },
    )
}

/// Relies on hex::encode: each input byte becomes two lowercase hexadecimal
/// digits, high nibble first.
#[verifier::external_body]
pub(crate) fn hex_encode(data: &[u8]) -> (r: Vec<u8>)
    ensures
        r@ == spec_hex(data@),
{
    hex::encode(data).into_bytes()
}

/// Hashes a blob by first attaching the store-canonical header to it and then
/// computing the SHA-1 digest of the result, which is the identifier the
/// object store itself assigns to these bytes.
pub fn hash_blob(blob: &[u8]) -> (r: [u8; 20])
    ensures
        r@ == sha1_of(spec_header(blob@)),
        r@.len() == 20,
{
    let blob_with_header = prepend_header_to_blob(blob);
    sha1_digest(blob_with_header.as_slice())
}

/// The content-addressed identifier of a blob, rendered as lowercase
/// hexadecimal text.
pub fn hash_blob_hex(blob: &[u8]) -> (r: Vec<u8>)
    ensures
        r@ == spec_hex(sha1_of(spec_header(blob@))),
        r@.len() == 40,
{
    let digest = hash_blob(blob);
    let out = hex_encode(digest.as_slice());
    proof {
        assert(digest@.len() == 20);
    }
    out
}

/// Hashing is deterministic: the identifier of a fixed object-byte string is
/// a function of those bytes alone, so two digests of equal byte strings are
/// equal.
pub proof fn lemma_digest_deterministic(blob1: Seq<u8>, blob2: Seq<u8>)
    requires
        blob1 == blob2,
    ensures
        sha1_of(spec_header(blob1)) == sha1_of(spec_header(blob2)),
{
}

} // verus!
