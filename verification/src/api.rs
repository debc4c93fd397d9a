//! The keystore front of the bridge. Each of its operations reads its request, decodes
//! what must be decoded, picks the input format of its signer, and names the one keystore
//! call that the operation makes; the caller performs that call and encodes the
//! keystore's answer with the functions below (or those of `keys` and `signed`).

use vstd::prelude::*;
use crate::encoding::{
    base64_decode, base64_decoded, base64_encode, base64_encoded, json_null, sha256,
    sha256_digest,
};
use crate::error::ApiError;
use crate::keys::{all_public_keys, parse_public_key, parse_public_keys, public_key_of};
use crate::signer::{input_format, spec_input_format, InputFormat, KeyOperation, KeySigner};

verus! {

/// The keystore call an operation makes, with its decoded arguments. `format` is the JSON
/// type that `input` is read as; it also names the signer whose keys the call uses.
#[derive(Debug)]
pub enum KeyStoreCall {
    /// List the entries.
    GetEntries,
    /// Add one key.
    AddKey { format: InputFormat, input: String },
    /// Add several keys; `input` is a JSON list of `format`.
    AddKeys { format: InputFormat, input: String },
    /// Update a key.
    UpdateKey { format: InputFormat, input: String },
    /// Export a key.
    ExportKey { format: InputFormat, input: String },
    /// List a signer's public keys.
    GetPublicKeys { format: InputFormat, input: String },
    /// Encrypt `data` for the keys with the algorithm named `algorithm`.
    Encrypt {
        format: InputFormat,
        data: Vec<u8>,
        public_keys: Vec<Vec<u8>>,
        algorithm: String,
        input: String,
    },
    /// Decrypt the JSON-encoded `encrypted_data`.
    Decrypt { format: InputFormat, encrypted_data: String, input: String },
    /// Sign `data`.
    Sign { format: InputFormat, data: Vec<u8>, input: String, signature_id: Option<i32> },
    /// Remove one key.
    RemoveKey { public_key: Vec<u8> },
    /// Remove several keys.
    RemoveKeys { public_keys: Vec<Vec<u8>> },
    /// Ask whether the password of a key is cached for `duration` milliseconds.
    IsPasswordCached { public_key: Vec<u8>, duration: u64 },
    /// Remove all entries and all sensitive data.
    ClearKeystore,
    /// Reload all stored data.
    ReloadKeystore,
}

/// The format `op` reads for `signer`, where there is one.
pub open spec fn reads(op: KeyOperation, signer: KeySigner, format: InputFormat) -> bool {
    spec_input_format(op, signer) == Ok::<InputFormat, ApiError>(format)
}

/// The input format of an operation that refuses no signer but the fake one.
fn format_of(op: KeyOperation, signer: KeySigner) -> (r: InputFormat)
    requires
        signer != KeySigner::Fake,
        op != KeyOperation::ExportKey,
    ensures
        reads(op, signer, r),
{
    match input_format(op, signer) {
        Ok(format) => format,
        Err(_) => {
            proof {
                assert(false);
            }
            InputFormat::LedgerSignInput
        },
    }
}

/// Each key of a list is the key that the text at the same place names.
pub open spec fn keys_named_by(keys: Seq<Vec<u8>>, texts: Seq<String>) -> bool {
    &&& keys.len() == texts.len()
    &&& forall|i: int| 0 <= i < texts.len() ==> Some((#[trigger] keys[i])@) == public_key_of(texts[i]@)
}

/// Decodes the base64 data of a request.
pub fn decode_data(data: &String) -> (r: Result<Vec<u8>, ApiError>)
    ensures
        match base64_decoded(data@) {
            Some(bytes) => r matches Ok(v) && v@ == bytes,
            None => r matches Err(ApiError::InvalidBase64(_)),
        },
{
    match base64_decode(data.as_str()) {
        Ok(bytes) => Ok(bytes),
        Err(m) => Err(ApiError::InvalidBase64(m)),
    }
}

/// Reads the public keys data is encrypted for; a bad key refuses the whole list.
pub fn decode_encryption_keys(texts: &Vec<String>) -> (r: Result<Vec<Vec<u8>>, ApiError>)
    ensures
        r is Ok <==> all_public_keys(texts@),
        r matches Ok(keys) ==> keys_named_by(keys@, texts@),
        r matches Err(e) ==> e is BadKeys,
{
    match parse_public_keys(texts) {
        Ok(keys) => Ok(keys),
        Err(ApiError::InvalidPublicKey(m)) => Err(ApiError::BadKeys(m)),
        Err(_) => Err(ApiError::BadKeys(String::new())),
    }
}

/// A signing call for `signer` on `data` with the given input and signature id.
pub open spec fn is_sign_call(
    call: KeyStoreCall,
    signer: KeySigner,
    data: Seq<u8>,
    input: Seq<char>,
    signature_id: Option<i32>,
) -> bool {
    call matches KeyStoreCall::Sign { format: f, data: d, input: i, signature_id: id } && reads(
        KeyOperation::Sign,
        signer,
        f,
    ) && d@ == data && i@ == input && id == signature_id
}

/// The signing call that a request to sign base64 `data` leads to: the decoded bytes,
/// or their SHA-256 digest (32 bytes) when `digest` is set.
pub open spec fn signing_request(
    r: Result<KeyStoreCall, ApiError>,
    signer: KeySigner,
    data: Seq<char>,
    input: Seq<char>,
    signature_id: Option<i32>,
    digest: bool,
) -> bool {
    match base64_decoded(data) {
        None => r matches Err(ApiError::InvalidBase64(_)),
        Some(bytes) => r matches Ok(call) && is_sign_call(
            call,
            signer,
            if digest {
                sha256(bytes)
            } else {
                bytes
            },
            input,
            signature_id,
        ) && (digest ==> sha256(bytes).len() == 32),
    }
}

/// Decodes the base64 data of a signing request into the signing call.
fn signing_call(
    signer: KeySigner,
    data: &String,
    input: String,
    signature_id: Option<i32>,
    digest: bool,
) -> (r: Result<KeyStoreCall, ApiError>)
    requires
        signer != KeySigner::Fake || base64_decoded(data@) is None,
    ensures
        signing_request(r, signer, data@, input@, signature_id, digest),
{
    let bytes = match decode_data(data) {
        Ok(bytes) => bytes,
        Err(e) => {
            return Err(e);
        },
    };
    let data = if digest {
        sha256_digest(bytes.as_slice())
    } else {
        bytes
    };
    let format = format_of(KeyOperation::Sign, signer);
    Ok(KeyStoreCall::Sign { format, data, input, signature_id })
}

/// The operations of the keystore front. Each names the keystore call it makes, after
/// decoding and checking what the request carries, with the input format of its signer.
/// The fake signer is forbidden: an operation that takes a signer requires another one
/// once its own checks have passed (before that, it refuses as it would any signer).
/// The `checked_*` functions below tell where a request reaches the fake signer.
pub trait KeyStoreApiBoxTrait {
    /// Lists the keystore entries.
    fn get_entries(&self) -> (r: KeyStoreCall)
        ensures
            r == KeyStoreCall::GetEntries,
    {
        KeyStoreCall::GetEntries
    }

    /// Adds a key from the signer's JSON creation input.
    fn add_key(&self, signer: KeySigner, input: String) -> (r: KeyStoreCall)
        requires
            signer != KeySigner::Fake,
        ensures
            r matches KeyStoreCall::AddKey { format: f, input: i } && reads(
                KeyOperation::AddKey,
                signer,
                f,
            ) && i == input,
    {
        KeyStoreCall::AddKey { format: format_of(KeyOperation::AddKey, signer), input }
    }

    /// Adds several keys from a JSON list of the signer's creation inputs, the same
    /// inputs `add_key` reads.
    fn add_keys(&self, signer: KeySigner, input: String) -> (r: KeyStoreCall)
        requires
            signer != KeySigner::Fake,
        ensures
            r matches KeyStoreCall::AddKeys { format: f, input: i } && reads(
                KeyOperation::AddKeys,
                signer,
                f,
            ) && i == input,
    {
        KeyStoreCall::AddKeys { format: format_of(KeyOperation::AddKeys, signer), input }
    }

    /// Updates a key from the signer's JSON update input.
    fn update_key(&self, signer: KeySigner, input: String) -> (r: KeyStoreCall)
        requires
            signer != KeySigner::Fake,
        ensures
            r matches KeyStoreCall::UpdateKey { format: f, input: i } && reads(
                KeyOperation::UpdateKey,
                signer,
                f,
            ) && i == input,
    {
        KeyStoreCall::UpdateKey { format: format_of(KeyOperation::UpdateKey, signer), input }
    }

    /// Exports a key (its seed phrase and mnemonic type); refused for the ledger signer,
    /// before its input is read.
    fn export_key(&self, signer: KeySigner, input: String) -> (r: Result<KeyStoreCall, ApiError>)
        requires
            signer != KeySigner::Fake,
        ensures
            signer == KeySigner::Ledger ==> r == Err::<KeyStoreCall, ApiError>(
                ApiError::ExportNotAllowed,
            ),
            signer != KeySigner::Ledger ==> (r matches Ok(KeyStoreCall::ExportKey { format: f, input: i })
                && reads(KeyOperation::ExportKey, signer, f) && i == input),
    {
        match input_format(KeyOperation::ExportKey, signer) {
            Ok(format) => Ok(KeyStoreCall::ExportKey { format, input }),
            Err(e) => Err(e),
        }
    }

    /// Lists the public keys of a signer.
    fn get_public_keys(&self, signer: KeySigner, input: String) -> (r: KeyStoreCall)
        requires
            signer != KeySigner::Fake,
        ensures
            r matches KeyStoreCall::GetPublicKeys { format: f, input: i } && reads(
                KeyOperation::GetPublicKeys,
                signer,
                f,
            ) && i == input,
    {
        KeyStoreCall::GetPublicKeys {
            format: format_of(KeyOperation::GetPublicKeys, signer),
            input,
        }
    }

    /// Encrypts base64 `data` for hex `public_keys`: the data is decoded first, then the
    /// keys; a bad key refuses the whole list. The algorithm name is passed on.
    fn encrypt(
        &self,
        signer: KeySigner,
        data: String,
        public_keys: Vec<String>,
        algorithm: String,
        input: String,
    ) -> (r: Result<KeyStoreCall, ApiError>)
        requires
            signer != KeySigner::Fake || base64_decoded(data@) is None || !all_public_keys(
                public_keys@,
            ),
        ensures
            base64_decoded(data@) is None ==> r matches Err(ApiError::InvalidBase64(_)),
            base64_decoded(data@) is Some && !all_public_keys(public_keys@) ==> r matches Err(
                ApiError::BadKeys(_),
            ),
            base64_decoded(data@) is Some && all_public_keys(public_keys@) ==> (r matches Ok(
                KeyStoreCall::Encrypt { format: f, data: d, public_keys: ks, algorithm: a, input: i },
            ) && reads(KeyOperation::Encrypt, signer, f) && Some(d@) == base64_decoded(data@)
                && keys_named_by(ks@, public_keys@) && a == algorithm && i == input),
    {
        let bytes = match decode_data(&data) {
            Ok(bytes) => bytes,
            Err(e) => {
                return Err(e);
            },
        };
        let keys = match decode_encryption_keys(&public_keys) {
            Ok(keys) => keys,
            Err(e) => {
                return Err(e);
            },
        };
        Ok(
            KeyStoreCall::Encrypt {
                format: format_of(KeyOperation::Encrypt, signer),
                data: bytes,
                public_keys: keys,
                algorithm,
                input,
            },
        )
    }

    /// Decrypts JSON-encoded encrypted data.
    fn decrypt(&self, signer: KeySigner, data: String, input: String) -> (r: KeyStoreCall)
        requires
            signer != KeySigner::Fake,
        ensures
            r matches KeyStoreCall::Decrypt { format: f, encrypted_data: d, input: i } && reads(
                KeyOperation::Decrypt,
                signer,
                f,
            ) && d == data && i == input,
    {
        KeyStoreCall::Decrypt {
            format: format_of(KeyOperation::Decrypt, signer),
            encrypted_data: data,
            input,
        }
    }

    /// Signs base64 `data`.
    fn sign(&self, signer: KeySigner, data: String, input: String, signature_id: Option<i32>) -> (r:
        Result<KeyStoreCall, ApiError>)
        requires
            signer != KeySigner::Fake || base64_decoded(data@) is None,
        ensures
            signing_request(r, signer, data@, input@, signature_id, false),
    {
        signing_call(signer, &data, input, signature_id, false)
    }

    /// Signs the SHA-256 digest of base64 `data`.
    fn sign_data(
        &self,
        signer: KeySigner,
        data: String,
        input: String,
        signature_id: Option<i32>,
    ) -> (r: Result<KeyStoreCall, ApiError>)
        requires
            signer != KeySigner::Fake || base64_decoded(data@) is None,
        ensures
            signing_request(r, signer, data@, input@, signature_id, true),
    {
        signing_call(signer, &data, input, signature_id, true)
    }

    /// Signs base64 `data` as it is, as `sign` does.
    fn sign_data_raw(
        &self,
        signer: KeySigner,
        data: String,
        input: String,
        signature_id: Option<i32>,
    ) -> (r: Result<KeyStoreCall, ApiError>)
        requires
            signer != KeySigner::Fake || base64_decoded(data@) is None,
        ensures
            signing_request(r, signer, data@, input@, signature_id, false),
    {
        signing_call(signer, &data, input, signature_id, false)
    }

    /// Removes the key named by a hex text.
    fn remove_key(&self, public_key: String) -> (r: Result<KeyStoreCall, ApiError>)
        ensures
            match public_key_of(public_key@) {
                Some(key) => r matches Ok(KeyStoreCall::RemoveKey { public_key: k }) && k@ == key,
                None => r matches Err(ApiError::InvalidPublicKey(_)),
            },
    {
        match parse_public_key(&public_key) {
            Ok(key) => Ok(KeyStoreCall::RemoveKey { public_key: key }),
            Err(e) => Err(e),
        }
    }

    /// Removes the keys named by hex texts; a bad text refuses the whole list.
    fn remove_keys(&self, public_keys: Vec<String>) -> (r: Result<KeyStoreCall, ApiError>)
        ensures
            all_public_keys(public_keys@) ==> (r matches Ok(KeyStoreCall::RemoveKeys { public_keys: ks })
                && keys_named_by(ks@, public_keys@)),
            !all_public_keys(public_keys@) ==> r matches Err(ApiError::InvalidPublicKey(_)),
    {
        match parse_public_keys(&public_keys) {
            Ok(keys) => Ok(KeyStoreCall::RemoveKeys { public_keys: keys }),
            Err(e) => Err(e),
        }
    }

    /// Asks whether the password of the key named by a hex text is cached for `duration`
    /// milliseconds.
    fn is_password_cached(&self, public_key: String, duration: u64) -> (r: Result<
        KeyStoreCall,
        ApiError,
    >)
        ensures
            match public_key_of(public_key@) {
                Some(key) => r matches Ok(KeyStoreCall::IsPasswordCached { public_key: k, duration: d })
                    && k@ == key && d == duration,
                None => r matches Err(ApiError::InvalidPublicKey(_)),
            },
    {
        match parse_public_key(&public_key) {
            Ok(key) => Ok(KeyStoreCall::IsPasswordCached { public_key: key, duration }),
            Err(e) => Err(e),
        }
    }

    /// Clears the keystore.
    fn clear_keystore(&self) -> (r: KeyStoreCall)
        ensures
            r == KeyStoreCall::ClearKeystore,
    {
        KeyStoreCall::ClearKeystore
    }

    /// Reloads the keystore.
    fn reload_keystore(&self) -> (r: KeyStoreCall)
        ensures
            r == KeyStoreCall::ReloadKeystore,
    {
        KeyStoreCall::ReloadKeystore
    }
}

/// Encrypts for any signer: `None` where the request reaches the fake signer (its data
/// and keys are good), which the bridge forbids; otherwise what `encrypt` answers.
pub fn checked_encrypt(
    front: &KeyStoreApiBox,
    signer: KeySigner,
    data: String,
    public_keys: Vec<String>,
    algorithm: String,
    input: String,
) -> (r: Option<Result<KeyStoreCall, ApiError>>)
    ensures
        r is None <==> (signer == KeySigner::Fake && base64_decoded(data@) is Some
            && all_public_keys(public_keys@)),
        base64_decoded(data@) is None ==> r matches Some(Err(ApiError::InvalidBase64(_))),
        base64_decoded(data@) is Some && !all_public_keys(public_keys@) ==> r matches Some(
            Err(ApiError::BadKeys(_)),
        ),
        signer != KeySigner::Fake && base64_decoded(data@) is Some && all_public_keys(
            public_keys@,
        ) ==> (r matches Some(
            Ok(KeyStoreCall::Encrypt { format: f, data: d, public_keys: ks, algorithm: a, input: i }),
        ) && reads(KeyOperation::Encrypt, signer, f) && Some(d@) == base64_decoded(data@)
            && keys_named_by(ks@, public_keys@) && a == algorithm && i == input),
{
    if signer == KeySigner::Fake {
        let data_ok = decode_data(&data).is_ok();
        let keys_ok = decode_encryption_keys(&public_keys).is_ok();
        if data_ok && keys_ok {
            return None;
        }
    }
    Some(front.encrypt(signer, data, public_keys, algorithm, input))
}

/// Signs for any signer, as `sign` (or, with `digest`, `sign_data`) does: `None` where
/// the request reaches the fake signer (its data decodes), which the bridge forbids.
fn checked_signing(
    front: &KeyStoreApiBox,
    signer: KeySigner,
    data: String,
    input: String,
    signature_id: Option<i32>,
    digest: bool,
) -> (r: Option<Result<KeyStoreCall, ApiError>>)
    ensures
        r is None <==> (signer == KeySigner::Fake && base64_decoded(data@) is Some),
        r matches Some(x) ==> signing_request(x, signer, data@, input@, signature_id, digest),
{
    if signer == KeySigner::Fake && decode_data(&data).is_ok() {
        return None;
    }
    if digest {
        Some(front.sign_data(signer, data, input, signature_id))
    } else {
        Some(front.sign(signer, data, input, signature_id))
    }
}

/// `sign` for any signer: `None` where the request reaches the fake signer.
pub fn checked_sign(
    front: &KeyStoreApiBox,
    signer: KeySigner,
    data: String,
    input: String,
    signature_id: Option<i32>,
) -> (r: Option<Result<KeyStoreCall, ApiError>>)
    ensures
        r is None <==> (signer == KeySigner::Fake && base64_decoded(data@) is Some),
        r matches Some(x) ==> signing_request(x, signer, data@, input@, signature_id, false),
{
    checked_signing(front, signer, data, input, signature_id, false)
}

/// `sign_data` for any signer: `None` where the request reaches the fake signer.
pub fn checked_sign_data(
    front: &KeyStoreApiBox,
    signer: KeySigner,
    data: String,
    input: String,
    signature_id: Option<i32>,
) -> (r: Option<Result<KeyStoreCall, ApiError>>)
    ensures
        r is None <==> (signer == KeySigner::Fake && base64_decoded(data@) is Some),
        r matches Some(x) ==> signing_request(x, signer, data@, input@, signature_id, true),
{
    checked_signing(front, signer, data, input, signature_id, true)
}

/// `sign_data_raw` for any signer: `None` where the request reaches the fake signer.
pub fn checked_sign_data_raw(
    front: &KeyStoreApiBox,
    signer: KeySigner,
    data: String,
    input: String,
    signature_id: Option<i32>,
) -> (r: Option<Result<KeyStoreCall, ApiError>>)
    ensures
        r is None <==> (signer == KeySigner::Fake && base64_decoded(data@) is Some),
        r matches Some(x) ==> signing_request(x, signer, data@, input@, signature_id, false),
{
    if signer == KeySigner::Fake && decode_data(&data).is_ok() {
        return None;
    }
    Some(front.sign_data_raw(signer, data, input, signature_id))
}

/// The keystore front. It holds no state of its own: the keystore that performs its calls
/// belongs to the caller.
#[derive(Debug)]
pub struct KeyStoreApiBox {}

impl KeyStoreApiBoxTrait for KeyStoreApiBox {}

/// Two signing outcomes name the same call, or fail alike.
pub open spec fn same_signing(a: Result<KeyStoreCall, ApiError>, b: Result<KeyStoreCall, ApiError>) -> bool {
    ||| (a matches Err(ApiError::InvalidBase64(_)) && b matches Err(ApiError::InvalidBase64(_)))
    ||| (a matches Ok(KeyStoreCall::Sign { format: f1, data: d1, input: i1, signature_id: s1 })
        && b matches Ok(KeyStoreCall::Sign { format: f2, data: d2, input: i2, signature_id: s2 })
        && f1 == f2 && d1@ == d2@ && i1@ == i2@ && s1 == s2)
}

/// Signing the digest of some data asks the keystore for the same signature as signing
/// any base64 text of that digest (such as the one `base64::encode` writes for it).
pub proof fn lemma_sign_data_signs_as_sign_of_digest(
    signer: KeySigner,
    data: Seq<char>,
    digest_text: Seq<char>,
    input: Seq<char>,
    signature_id: Option<i32>,
    by_digest: Result<KeyStoreCall, ApiError>,
    by_text: Result<KeyStoreCall, ApiError>,
)
    requires
        signer != KeySigner::Fake,
        base64_decoded(data) is Some,
        base64_decoded(digest_text) == Some(sha256(base64_decoded(data)->0)),
        signing_request(by_digest, signer, data, input, signature_id, true),
        signing_request(by_text, signer, digest_text, input, signature_id, false),
    ensures
        same_signing(by_digest, by_text),
{
}

/// `sign_data_raw` asks the keystore for the same signature as `sign` on the same request.
pub proof fn lemma_sign_data_raw_signs_as_sign(
    signer: KeySigner,
    data: Seq<char>,
    input: Seq<char>,
    signature_id: Option<i32>,
    raw: Result<KeyStoreCall, ApiError>,
    plain: Result<KeyStoreCall, ApiError>,
)
    requires
        signer != KeySigner::Fake,
        signing_request(raw, signer, data, input, signature_id, false),
        signing_request(plain, signer, data, input, signature_id, false),
    ensures
        same_signing(raw, plain),
{
}

/// The answer to a decryption: the decrypted bytes in base64, which decodes back to them.
pub fn decrypted_text(data: &Vec<u8>) -> (r: String)
    requires
        data@.len() <= usize::MAX / 2,
    ensures
        r@ == base64_encoded(data@),
        base64_decoded(r@) == Some(data@),
{
    base64_encode(data.as_slice())
}

/// The answer to clearing or reloading the keystore: JSON `null`.
pub fn null_text() -> (r: String)
    ensures
        r@ == seq!['n', 'u', 'l', 'l'],
{
    json_null()
}

} // verus!
