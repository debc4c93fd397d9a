//! Public keys as the bridge exchanges them: compressed ed25519 points of 32 bytes,
//! written as hex.

use vstd::prelude::*;
use crate::encoding::{hex_decode, hex_decoded, hex_encode, hex_lower, lemma_hex_lower_len, lemma_hex_roundtrip};
use crate::error::ApiError;

verus! {

/// The length of a public key in bytes.
pub const PUBLIC_KEY_LENGTH: usize = 32;

/// Whether 32 bytes are the compressed form of a point of the ed25519 curve, as
/// `ed25519_dalek::PublicKey::from_bytes` decides it.
pub uninterp spec fn ed25519_point(bytes: Seq<u8>) -> bool;

/// Trusted: `ed25519_dalek::PublicKey::from_bytes` refuses any length but 32, and then
/// accepts exactly the bytes that decompress to a curve point (named `ed25519_point`); a
/// refusal is handed back as the error's text (which is not stated).
#[verifier::external_body]
fn check_ed25519_public_key(bytes: &[u8]) -> (r: Result<(), String>)
    ensures
        r is Ok == (bytes@.len() == PUBLIC_KEY_LENGTH && ed25519_point(bytes@)),
{
    match ed25519_dalek::PublicKey::from_bytes(bytes) {
        Ok(_) => Ok(()),
        Err(e) => Err(format!("{}", e)),
    }
}

/// The key a text names: the hex decoding of the text, when that is a public key.
pub open spec fn public_key_of(text: Seq<char>) -> Option<Seq<u8>> {
    match hex_decoded(text) {
        Some(bytes) => if bytes.len() == PUBLIC_KEY_LENGTH && ed25519_point(bytes) {
            Some(bytes)
        } else {
            None
        },
        None => None,
    }
}

/// Whether every text of a list names a public key.
pub open spec fn all_public_keys(texts: Seq<String>) -> bool {
    forall|i: int| 0 <= i < texts.len() ==> (#[trigger] public_key_of(texts[i]@)) is Some
}

/// Reads a public key from its hex text (digits of either case): 32 bytes that are a
/// point of the curve.
pub fn parse_public_key(text: &String) -> (r: Result<Vec<u8>, ApiError>)
    ensures
        match public_key_of(text@) {
            Some(key) => r matches Ok(v) && v@ == key,
            None => r matches Err(ApiError::InvalidPublicKey(_)),
        },
{
    match hex_decode(text.as_str()) {
        Ok(bytes) => match check_ed25519_public_key(bytes.as_slice()) {
            Ok(()) => Ok(bytes),
            Err(m) => Err(ApiError::InvalidPublicKey(m)),
        },
        Err(m) => Err(ApiError::InvalidPublicKey(m)),
    }
}

/// Reads a list of public keys; the first text that names no key makes the whole list
/// fail.
pub fn parse_public_keys(texts: &Vec<String>) -> (r: Result<Vec<Vec<u8>>, ApiError>)
    ensures
        r is Ok <==> all_public_keys(texts@),
        r matches Ok(keys) ==> keys@.len() == texts@.len() && forall|i: int|
            0 <= i < texts@.len() ==> Some(#[trigger] keys@[i]@) == public_key_of(texts@[i]@),
        r matches Err(e) ==> e is InvalidPublicKey,
{
    let mut keys: Vec<Vec<u8>> = Vec::new();
    let mut i: usize = 0;
    while i < texts.len()
        invariant
            i <= texts@.len(),
            keys@.len() == i,
            forall|j: int| 0 <= j < i ==> Some(#[trigger] keys@[j]@) == public_key_of(texts@[j]@),
        decreases texts@.len() - i,
    {
        match parse_public_key(&texts[i]) {
            Ok(key) => keys.push(key),
            Err(e) => {
                assert(public_key_of(texts@[i as int]@) is None);
                return Err(e);
            },
        }
        i = i + 1;
    }
    assert forall|j: int| 0 <= j < texts@.len() implies (#[trigger] public_key_of(
        texts@[j]@,
    )) is Some by {
        assert(Some(keys@[j]@) == public_key_of(texts@[j]@));
    }
    Ok(keys)
}

/// Writes each public key as lower-case hex, in order.
pub fn public_keys_hex(keys: &Vec<Vec<u8>>) -> (r: Vec<String>)
    ensures
        r@.len() == keys@.len(),
        forall|i: int| 0 <= i < keys@.len() ==> (#[trigger] r@[i])@ == hex_lower(keys@[i]@),
{
    let mut texts: Vec<String> = Vec::new();
    let mut i: usize = 0;
    while i < keys.len()
        invariant
            i <= keys@.len(),
            texts@.len() == i,
            forall|j: int| 0 <= j < i ==> (#[trigger] texts@[j])@ == hex_lower(keys@[j]@),
        decreases keys@.len() - i,
    {
        texts.push(hex_encode(keys[i].as_slice()));
        i = i + 1;
    }
    texts
}

/// A key written out by `public_keys_hex` reads back as the same key: the public keys
/// that the keystore lists can be handed back to it.
pub proof fn lemma_public_key_roundtrip(key: Seq<u8>)
    requires
        key.len() == PUBLIC_KEY_LENGTH,
        ed25519_point(key),
    ensures
        public_key_of(hex_lower(key)) == Some(key),
{
    lemma_hex_roundtrip(key);
}

/// A public key is written as 64 hex digits.
pub proof fn lemma_public_key_text_len(key: Seq<u8>)
    requires
        key.len() == PUBLIC_KEY_LENGTH,
    ensures
        hex_lower(key).len() == 64,
{
    lemma_hex_lower_len(key);
}

} // verus!
