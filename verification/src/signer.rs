//! Signers and the input each keystore operation expects from each of them.

use vstd::prelude::*;
use crate::error::ApiError;

verus! {

/// The kind of signer a key belongs to. `Fake` exists in the bridge's model but is
/// forbidden for every keystore operation.
#[derive(Clone, Copy, Debug, PartialEq, Eq, Structural)]
pub enum KeySigner {
    Encrypted,
    Derived,
    Ledger,
    Fake,
}

/// The keystore operations whose input depends on the signer.
#[derive(Clone, Copy, Debug, PartialEq, Eq, Structural)]
pub enum KeyOperation {
    AddKey,
    AddKeys,
    UpdateKey,
    ExportKey,
    GetPublicKeys,
    Encrypt,
    Decrypt,
    Sign,
}

/// The JSON input types a signer's operations are parsed as (for `AddKeys`, the input is
/// a JSON list of the type).
#[derive(Clone, Copy, Debug, PartialEq, Eq, Structural)]
pub enum InputFormat {
    EncryptedKeyCreateInput,
    DerivedKeyCreateInput,
    LedgerKeyCreateInput,
    EncryptedKeyUpdateParams,
    DerivedKeyUpdateParams,
    LedgerUpdateKeyInput,
    EncryptedKeyPassword,
    DerivedKeyExportParams,
    EncryptedKeyGetPublicKeys,
    DerivedKeyGetPublicKeys,
    LedgerKeyGetPublicKeys,
    DerivedKeySignParams,
    LedgerSignInput,
}

/// The signer whose inputs a format describes.
pub open spec fn format_owner(format: InputFormat) -> KeySigner {
    match format {
        InputFormat::EncryptedKeyCreateInput => KeySigner::Encrypted,
        InputFormat::EncryptedKeyUpdateParams => KeySigner::Encrypted,
        InputFormat::EncryptedKeyPassword => KeySigner::Encrypted,
        InputFormat::EncryptedKeyGetPublicKeys => KeySigner::Encrypted,
        InputFormat::DerivedKeyCreateInput => KeySigner::Derived,
        InputFormat::DerivedKeyUpdateParams => KeySigner::Derived,
        InputFormat::DerivedKeyExportParams => KeySigner::Derived,
        InputFormat::DerivedKeyGetPublicKeys => KeySigner::Derived,
        InputFormat::DerivedKeySignParams => KeySigner::Derived,
        InputFormat::LedgerKeyCreateInput => KeySigner::Ledger,
        InputFormat::LedgerUpdateKeyInput => KeySigner::Ledger,
        InputFormat::LedgerKeyGetPublicKeys => KeySigner::Ledger,
        InputFormat::LedgerSignInput => KeySigner::Ledger,
    }
}

/// The input format of an operation for a (non-fake) signer, or the refusal of exporting
/// a ledger key.
pub open spec fn spec_input_format(op: KeyOperation, signer: KeySigner) -> Result<InputFormat, ApiError> {
    match (op, signer) {
        (KeyOperation::AddKey, KeySigner::Encrypted) => Ok(InputFormat::EncryptedKeyCreateInput),
        (KeyOperation::AddKey, KeySigner::Derived) => Ok(InputFormat::DerivedKeyCreateInput),
        (KeyOperation::AddKey, _) => Ok(InputFormat::LedgerKeyCreateInput),
        (KeyOperation::AddKeys, KeySigner::Encrypted) => Ok(InputFormat::EncryptedKeyCreateInput),
        (KeyOperation::AddKeys, KeySigner::Derived) => Ok(InputFormat::DerivedKeyCreateInput),
        (KeyOperation::AddKeys, _) => Ok(InputFormat::LedgerKeyCreateInput),
        (KeyOperation::UpdateKey, KeySigner::Encrypted) => Ok(InputFormat::EncryptedKeyUpdateParams),
        (KeyOperation::UpdateKey, KeySigner::Derived) => Ok(InputFormat::DerivedKeyUpdateParams),
        (KeyOperation::UpdateKey, _) => Ok(InputFormat::LedgerUpdateKeyInput),
        (KeyOperation::ExportKey, KeySigner::Encrypted) => Ok(InputFormat::EncryptedKeyPassword),
        (KeyOperation::ExportKey, KeySigner::Derived) => Ok(InputFormat::DerivedKeyExportParams),
        (KeyOperation::ExportKey, _) => Err(ApiError::ExportNotAllowed),
        (KeyOperation::GetPublicKeys, KeySigner::Encrypted) => Ok(InputFormat::EncryptedKeyGetPublicKeys),
        (KeyOperation::GetPublicKeys, KeySigner::Derived) => Ok(InputFormat::DerivedKeyGetPublicKeys),
        (KeyOperation::GetPublicKeys, _) => Ok(InputFormat::LedgerKeyGetPublicKeys),
        (_, KeySigner::Encrypted) => Ok(InputFormat::EncryptedKeyPassword),
        (_, KeySigner::Derived) => Ok(InputFormat::DerivedKeySignParams),
        (_, _) => Ok(InputFormat::LedgerSignInput),
    }
}

/// The JSON input type that `op` parses its input as for `signer`. Exporting a ledger key
/// is refused. The fake signer is forbidden: asking for it is a caller error (the bridge
/// panics on it), so it is left out.
pub fn input_format(op: KeyOperation, signer: KeySigner) -> (r: Result<InputFormat, ApiError>)
    requires
        signer != KeySigner::Fake,
    ensures
        r == spec_input_format(op, signer),
{
    match op {
        KeyOperation::AddKey | KeyOperation::AddKeys => match signer {
            KeySigner::Encrypted => Ok(InputFormat::EncryptedKeyCreateInput),
            KeySigner::Derived => Ok(InputFormat::DerivedKeyCreateInput),
            _ => Ok(InputFormat::LedgerKeyCreateInput),
        },
        KeyOperation::UpdateKey => match signer {
            KeySigner::Encrypted => Ok(InputFormat::EncryptedKeyUpdateParams),
            KeySigner::Derived => Ok(InputFormat::DerivedKeyUpdateParams),
            _ => Ok(InputFormat::LedgerUpdateKeyInput),
        },
        KeyOperation::ExportKey => match signer {
            KeySigner::Encrypted => Ok(InputFormat::EncryptedKeyPassword),
            KeySigner::Derived => Ok(InputFormat::DerivedKeyExportParams),
            _ => Err(ApiError::ExportNotAllowed),
        },
        KeyOperation::GetPublicKeys => match signer {
            KeySigner::Encrypted => Ok(InputFormat::EncryptedKeyGetPublicKeys),
            KeySigner::Derived => Ok(InputFormat::DerivedKeyGetPublicKeys),
            _ => Ok(InputFormat::LedgerKeyGetPublicKeys),
        },
        KeyOperation::Encrypt | KeyOperation::Decrypt | KeyOperation::Sign => match signer {
            KeySigner::Encrypted => Ok(InputFormat::EncryptedKeyPassword),
            KeySigner::Derived => Ok(InputFormat::DerivedKeySignParams),
            _ => Ok(InputFormat::LedgerSignInput),
        },
    }
}

/// Every operation reads an input of the signer it was asked for, and the only refusal
/// is the export of a ledger key.
pub proof fn lemma_input_format_belongs_to_signer(op: KeyOperation, signer: KeySigner)
    requires
        signer != KeySigner::Fake,
    ensures
        spec_input_format(op, signer) matches Ok(format) ==> format_owner(format) == signer,
        spec_input_format(op, signer) is Err <==> (op == KeyOperation::ExportKey && signer
            == KeySigner::Ledger),
{
}

/// Encryption, decryption and signing read the same input from a signer: the one that
/// unlocks its key.
pub proof fn lemma_key_use_shares_input(signer: KeySigner)
    requires
        signer != KeySigner::Fake,
    ensures
        spec_input_format(KeyOperation::Encrypt, signer) == spec_input_format(
            KeyOperation::Sign,
            signer,
        ),
        spec_input_format(KeyOperation::Decrypt, signer) == spec_input_format(
            KeyOperation::Sign,
            signer,
        ),
        spec_input_format(KeyOperation::AddKeys, signer) == spec_input_format(
            KeyOperation::AddKey,
            signer,
        ),
{
}

} // verus!
