//! The forms in which a signature is handed back: base64, hex, and hex halves.

use vstd::prelude::*;
use crate::encoding::{
    base64_decoded, base64_encode, base64_encoded, hex_decoded, hex_encode, hex_lower, lemma_hex_lower_concat, lemma_hex_roundtrip,
    lemma_hex_lower_len,
};

verus! {

/// The length of a signature in bytes.
pub const SIGNATURE_LENGTH: usize = 64;

/// The two halves of a signature, each as `0x` followed by lower-case hex.
#[derive(Debug, Clone)]
pub struct SignatureParts {
    pub high: String,
    pub low: String,
}

/// A signature of the SHA-256 digest of some data.
#[derive(Debug, Clone)]
pub struct SignedData {
    pub data_hash: String,
    pub signature: String,
    pub signature_hex: String,
    pub signature_parts: SignatureParts,
}

/// A signature of the data itself.
#[derive(Debug, Clone)]
pub struct SignedDataRaw {
    pub signature: String,
    pub signature_hex: String,
    pub signature_parts: SignatureParts,
}

/// `0x` followed by the lower-case hex of some bytes.
pub open spec fn prefixed_hex(bytes: Seq<u8>) -> Seq<char> {
    seq!['0', 'x'] + hex_lower(bytes)
}

/// The parts of a signature: its first 32 bytes, then the remaining ones.
pub open spec fn parts_of(parts: SignatureParts, signature: Seq<u8>) -> bool {
    &&& parts.high@ == prefixed_hex(signature.take(32))
    &&& parts.low@ == prefixed_hex(signature.skip(32))
}

/// `0x` followed by the hex of the bytes.
fn prefixed_hex_text(bytes: &[u8]) -> (r: String)
    ensures
        r@ == prefixed_hex(bytes@),
{
    let mut text = String::from_str("0x");
    proof {
        reveal_strlit("0x");
    }
    let digits = hex_encode(bytes);
    text.append(digits.as_str());
    text
}

/// The bytes `from..to` of a signature.
fn signature_range(signature: &Vec<u8>, from: usize, to: usize) -> (r: Vec<u8>)
    requires
        from <= to <= signature@.len(),
    ensures
        r@ == signature@.subrange(from as int, to as int),
{
    let mut part: Vec<u8> = Vec::new();
    let mut i: usize = from;
    while i < to
        invariant
            from <= i <= to <= signature@.len(),
            part@ == signature@.subrange(from as int, i as int),
        decreases to - i,
    {
        part.push(signature[i]);
        i = i + 1;
        assert(part@ =~= signature@.subrange(from as int, i as int));
    }
    part
}

/// Splits a signature into its high and low halves.
pub fn signature_parts(signature: &Vec<u8>) -> (r: SignatureParts)
    requires
        signature@.len() == SIGNATURE_LENGTH,
    ensures
        parts_of(r, signature@),
{
    let high = signature_range(signature, 0, 32);
    let low = signature_range(signature, 32, SIGNATURE_LENGTH);
    assert(high@ =~= signature@.take(32));
    assert(low@ =~= signature@.skip(32));
    SignatureParts { high: prefixed_hex_text(high.as_slice()), low: prefixed_hex_text(low.as_slice()) }
}

/// The answer to a signing request: the signature in base64.
pub fn signature_text(signature: &Vec<u8>) -> (r: String)
    requires
        signature@.len() == SIGNATURE_LENGTH,
    ensures
        r@ == base64_encoded(signature@),
        base64_decoded(r@) == Some(signature@),
{
    base64_encode(signature.as_slice())
}

/// The answer to a request to sign the digest of some data: the digest in hex and the
/// signature in base64, in hex and in hex halves.
pub fn signed_data(hash: &Vec<u8>, signature: &Vec<u8>) -> (r: SignedData)
    requires
        signature@.len() == SIGNATURE_LENGTH,
    ensures
        r.data_hash@ == hex_lower(hash@),
        r.signature@ == base64_encoded(signature@),
        base64_decoded(r.signature@) == Some(signature@),
        r.signature_hex@ == hex_lower(signature@),
        parts_of(r.signature_parts, signature@),
{
    SignedData {
        data_hash: hex_encode(hash.as_slice()),
        signature: base64_encode(signature.as_slice()),
        signature_hex: hex_encode(signature.as_slice()),
        signature_parts: signature_parts(signature),
    }
}

/// The answer to a request to sign data as it is: the signature in base64, in hex and in
/// hex halves.
pub fn signed_data_raw(signature: &Vec<u8>) -> (r: SignedDataRaw)
    requires
        signature@.len() == SIGNATURE_LENGTH,
    ensures
        r.signature@ == base64_encoded(signature@),
        base64_decoded(r.signature@) == Some(signature@),
        r.signature_hex@ == hex_lower(signature@),
        parts_of(r.signature_parts, signature@),
{
    SignedDataRaw {
        signature: base64_encode(signature.as_slice()),
        signature_hex: hex_encode(signature.as_slice()),
        signature_parts: signature_parts(signature),
    }
}

/// The two parts of a signature, without their `0x`, joined, are its hex, which decodes
/// back to the signature; each part is `0x` and 64 hex digits.
pub proof fn lemma_signature_parts_join(signature: Seq<u8>, parts: SignatureParts)
    requires
        signature.len() == SIGNATURE_LENGTH,
        parts_of(parts, signature),
    ensures
        parts.high@.skip(2) + parts.low@.skip(2) == hex_lower(signature),
        hex_decoded(hex_lower(signature)) == Some(signature),
        parts.high@.len() == 66,
        parts.low@.len() == 66,
        parts.high@.take(2) == seq!['0', 'x'],
        parts.low@.take(2) == seq!['0', 'x'],
{
    let a = signature.take(32);
    let b = signature.skip(32);
    assert(a + b =~= signature);
    lemma_hex_lower_concat(a, b);
    lemma_hex_lower_len(a);
    lemma_hex_lower_len(b);
    lemma_hex_roundtrip(signature);
    assert(parts.high@.skip(2) =~= hex_lower(a));
    assert(parts.low@.skip(2) =~= hex_lower(b));
    assert(parts.high@.take(2) =~= seq!['0', 'x']);
    assert(parts.low@.take(2) =~= seq!['0', 'x']);
}

} // verus!
