//! Text encodings of bytes used by the bridge: lower-case hex (`hex`), standard base64
//! (`base64`), SHA-256 digests (`sha2`) and JSON `null` (`serde_json`).
//! Each outside call stands behind one trusted wrapper; the spec functions here say what
//! the wrappers return, and the lemmas derive the facts the rest of the crate needs.

use vstd::prelude::*;
use sha2::Digest;

verus! {

// ---------------------------------------------------------------- hex

/// The lower-case hexadecimal digit of a value below 16.
pub open spec fn hex_digit(v: int) -> char {
    if v < 10 {
        (('0' as int) + v) as char
    } else {
        (('a' as int) + v - 10) as char
    }
}

/// Lower-case hex encoding: two digits per byte, high half first.
pub open spec fn hex_lower(bytes: Seq<u8>) -> Seq<char>
    decreases bytes.len(),
{
    if bytes.len() == 0 {
        Seq::empty()
    } else {
        let b = bytes[0] as int;
        seq![hex_digit(b / 16), hex_digit(b % 16)] + hex_lower(bytes.drop_first())
    }
}

/// The value of a hex digit of either case.
pub open spec fn hex_value(c: char) -> Option<int> {
    if '0' as int <= c as int <= '9' as int {
        Some(c as int - '0' as int)
    } else if 'a' as int <= c as int <= 'f' as int {
        Some(c as int - 'a' as int + 10)
    } else if 'A' as int <= c as int <= 'F' as int {
        Some(c as int - 'A' as int + 10)
    } else {
        None
    }
}

/// Hex decoding: defined when the text has an even number of hex digits (of either case)
/// and nothing else; each pair of digits gives one byte.
pub open spec fn hex_decoded(text: Seq<char>) -> Option<Seq<u8>>
    decreases text.len(),
{
    if text.len() == 0 {
        Some(Seq::empty())
    } else if text.len() == 1 {
        None
    } else {
        match (hex_value(text[0]), hex_value(text[1]), hex_decoded(text.skip(2))) {
            (Some(high), Some(low), Some(rest)) => Some(seq![(high * 16 + low) as u8] + rest),
            _ => None,
        }
    }
}

/// Hex encodes each byte as two characters.
pub proof fn lemma_hex_lower_len(bytes: Seq<u8>)
    ensures
        hex_lower(bytes).len() == 2 * bytes.len(),
    decreases bytes.len(),
{
    if bytes.len() > 0 {
        lemma_hex_lower_len(bytes.drop_first());
    }
}

/// Hex encoding of a concatenation is the concatenation of the encodings.
pub proof fn lemma_hex_lower_concat(a: Seq<u8>, b: Seq<u8>)
    ensures
        hex_lower(a + b) == hex_lower(a) + hex_lower(b),
    decreases a.len(),
{
    if a.len() == 0 {
        assert(a + b =~= b);
    } else {
        assert((a + b).drop_first() =~= a.drop_first() + b);
        lemma_hex_lower_concat(a.drop_first(), b);
        assert(hex_lower(a + b) =~= hex_lower(a) + hex_lower(b));
    }
}

/// A lower-case digit reads back as the value it was written for.
pub proof fn lemma_hex_digit_value(v: int)
    requires
        0 <= v < 16,
    ensures
        hex_value(hex_digit(v)) == Some(v),
{
}

/// Hex decoding undoes hex encoding.
pub proof fn lemma_hex_roundtrip(bytes: Seq<u8>)
    ensures
        hex_decoded(hex_lower(bytes)) == Some(bytes),
    decreases bytes.len(),
{
    if bytes.len() > 0 {
        let text = hex_lower(bytes);
        let b = bytes[0] as int;
        lemma_hex_digit_value(b / 16);
        lemma_hex_digit_value(b % 16);
        assert(text.skip(2) =~= hex_lower(bytes.drop_first()));
        lemma_hex_roundtrip(bytes.drop_first());
        assert((b / 16) * 16 + b % 16 == b);
        assert(seq![bytes[0]] + bytes.drop_first() =~= bytes);
    }
}

/// Trusted: `hex::encode` writes each byte as two lower-case hex digits, high half
/// first (table `HEX_CHARS_LOWER` in the crate's source).
#[verifier::external_body]
pub(crate) fn hex_encode(data: &[u8]) -> (res: String)
    ensures
        res@ == hex_lower(data@),
{
    hex::encode(data)
}

/// Trusted: `hex::decode` accepts an even number of hex digits of either case and
/// nothing else, and returns one byte per pair; any other text is an error, handed back
/// as the error's text (which is not stated).
#[verifier::external_body]
pub(crate) fn hex_decode(text: &str) -> (res: Result<Vec<u8>, String>)
    ensures
        match res {
            Ok(v) => hex_decoded(text@) == Some(v@),
            Err(_) => hex_decoded(text@) is None,
        },
{
    match hex::decode(text) {
        Ok(v) => Ok(v),
        Err(e) => Err(format!("{}", e)),
    }
}

// ---------------------------------------------------------------- base64

/// The character of a six-bit value in the standard base64 alphabet.
pub open spec fn base64_char(v: int) -> char {
    if v < 26 {
        (('A' as int) + v) as char
    } else if v < 52 {
        (('a' as int) + v - 26) as char
    } else if v < 62 {
        (('0' as int) + v - 52) as char
    } else if v == 62 {
        '+'
    } else {
        '/'
    }
}

/// Standard base64 with padding: every three bytes give four characters; a last group
/// of one or two bytes is padded with `=` to four characters.
pub open spec fn base64_encoded(bytes: Seq<u8>) -> Seq<char>
    decreases bytes.len(),
{
    if bytes.len() == 0 {
        Seq::empty()
    } else if bytes.len() == 1 {
        let b0 = bytes[0] as int;
        seq![base64_char(b0 / 4), base64_char((b0 % 4) * 16), '=', '=']
    } else if bytes.len() == 2 {
        let (b0, b1) = (bytes[0] as int, bytes[1] as int);
        seq![
            base64_char(b0 / 4),
            base64_char((b0 % 4) * 16 + b1 / 16),
            base64_char((b1 % 16) * 4),
            '=',
        ]
    } else {
        let (b0, b1, b2) = (bytes[0] as int, bytes[1] as int, bytes[2] as int);
        seq![
            base64_char(b0 / 4),
            base64_char((b0 % 4) * 16 + b1 / 16),
            base64_char((b1 % 16) * 4 + b2 / 64),
            base64_char(b2 % 64),
        ] + base64_encoded(bytes.skip(3))
    }
}

/// What `base64::decode` (standard configuration) makes of a text: the bytes, or `None`
/// where it reports an error.
pub uninterp spec fn base64_decoded(text: Seq<char>) -> Option<Seq<u8>>;

/// Trusted: `base64::encode` uses the standard alphabet with padding (`STANDARD`), and
/// `base64::decode` reads what it writes back as the same bytes. It panics only when the
/// encoded length overflows `usize`, which the bound excludes.
#[verifier::external_body]
pub(crate) fn base64_encode(data: &[u8]) -> (res: String)
    requires
        data@.len() <= usize::MAX / 2,
    ensures
        res@ == base64_encoded(data@),
        base64_decoded(res@) == Some(data@),
{
    base64::encode(data)
}

/// Trusted: `base64::decode` with the standard configuration; the result is named, and
/// an error is handed back as the error's text (which is not stated).
#[verifier::external_body]
pub(crate) fn base64_decode(text: &str) -> (res: Result<Vec<u8>, String>)
    ensures
        match res {
            Ok(v) => base64_decoded(text@) == Some(v@),
            Err(_) => base64_decoded(text@) is None,
        },
{
    match base64::decode(text) {
        Ok(v) => Ok(v),
        Err(e) => Err(format!("{}", e)),
    }
}

// ---------------------------------------------------------------- sha256

/// The SHA-256 digest of some bytes, as `sha2::Sha256` computes it.
pub uninterp spec fn sha256(data: Seq<u8>) -> Seq<u8>;

/// Trusted: `sha2::Sha256::digest`; its output type holds 32 bytes.
#[verifier::external_body]
pub(crate) fn sha256_digest(data: &[u8]) -> (res: Vec<u8>)
    ensures
        res@ == sha256(data@),
        res@.len() == 32,
{
    sha2::Sha256::digest(data).to_vec()
}

// ---------------------------------------------------------------- JSON

/// Trusted: `serde_json::Value::Null` is written as `null`.
#[verifier::external_body]
pub(crate) fn json_null() -> (res: String)
    ensures
        res@ == seq!['n', 'u', 'l', 'l'],
{
    serde_json::Value::Null.to_string()
}

} // verus!
