use nekoton_bridge::error::ApiError;
use nekoton_bridge::signer::{input_format, InputFormat, KeyOperation, KeySigner};

const OPERATIONS: [KeyOperation; 8] = [
    KeyOperation::AddKey,
    KeyOperation::AddKeys,
    KeyOperation::UpdateKey,
    KeyOperation::ExportKey,
    KeyOperation::GetPublicKeys,
    KeyOperation::Encrypt,
    KeyOperation::Decrypt,
    KeyOperation::Sign,
];

#[test]
fn add_key_inputs_per_signer() {
    assert_eq!(input_format(KeyOperation::AddKey, KeySigner::Encrypted), Ok(InputFormat::EncryptedKeyCreateInput));
    assert_eq!(input_format(KeyOperation::AddKey, KeySigner::Derived), Ok(InputFormat::DerivedKeyCreateInput));
    assert_eq!(input_format(KeyOperation::AddKey, KeySigner::Ledger), Ok(InputFormat::LedgerKeyCreateInput));
}

#[test]
fn add_keys_reads_the_inputs_of_add_key() {
    for signer in [KeySigner::Encrypted, KeySigner::Derived, KeySigner::Ledger] {
        assert_eq!(input_format(KeyOperation::AddKeys, signer), input_format(KeyOperation::AddKey, signer));
    }
}

#[test]
fn update_key_inputs_per_signer() {
    assert_eq!(input_format(KeyOperation::UpdateKey, KeySigner::Encrypted), Ok(InputFormat::EncryptedKeyUpdateParams));
    assert_eq!(input_format(KeyOperation::UpdateKey, KeySigner::Derived), Ok(InputFormat::DerivedKeyUpdateParams));
    assert_eq!(input_format(KeyOperation::UpdateKey, KeySigner::Ledger), Ok(InputFormat::LedgerUpdateKeyInput));
}

#[test]
fn export_key_is_refused_for_ledger() {
    assert_eq!(input_format(KeyOperation::ExportKey, KeySigner::Encrypted), Ok(InputFormat::EncryptedKeyPassword));
    assert_eq!(input_format(KeyOperation::ExportKey, KeySigner::Derived), Ok(InputFormat::DerivedKeyExportParams));
    assert_eq!(input_format(KeyOperation::ExportKey, KeySigner::Ledger), Err(ApiError::ExportNotAllowed));
    assert_eq!(
        ApiError::ExportNotAllowed.message(),
        "export_key is not allowed for KeySigner::Ledger"
    );
}

#[test]
fn get_public_keys_inputs_per_signer() {
    assert_eq!(input_format(KeyOperation::GetPublicKeys, KeySigner::Encrypted), Ok(InputFormat::EncryptedKeyGetPublicKeys));
    assert_eq!(input_format(KeyOperation::GetPublicKeys, KeySigner::Derived), Ok(InputFormat::DerivedKeyGetPublicKeys));
    assert_eq!(input_format(KeyOperation::GetPublicKeys, KeySigner::Ledger), Ok(InputFormat::LedgerKeyGetPublicKeys));
}

#[test]
fn encrypt_decrypt_and_sign_read_the_same_input() {
    for op in [KeyOperation::Encrypt, KeyOperation::Decrypt, KeyOperation::Sign] {
        assert_eq!(input_format(op, KeySigner::Encrypted), Ok(InputFormat::EncryptedKeyPassword));
        assert_eq!(input_format(op, KeySigner::Derived), Ok(InputFormat::DerivedKeySignParams));
        assert_eq!(input_format(op, KeySigner::Ledger), Ok(InputFormat::LedgerSignInput));
    }
}

fn owner(format: InputFormat) -> KeySigner {
    match format {
        InputFormat::EncryptedKeyCreateInput
        | InputFormat::EncryptedKeyUpdateParams
        | InputFormat::EncryptedKeyPassword
        | InputFormat::EncryptedKeyGetPublicKeys => KeySigner::Encrypted,
        InputFormat::DerivedKeyCreateInput
        | InputFormat::DerivedKeyUpdateParams
        | InputFormat::DerivedKeyExportParams
        | InputFormat::DerivedKeyGetPublicKeys
        | InputFormat::DerivedKeySignParams => KeySigner::Derived,
        InputFormat::LedgerKeyCreateInput
        | InputFormat::LedgerUpdateKeyInput
        | InputFormat::LedgerKeyGetPublicKeys
        | InputFormat::LedgerSignInput => KeySigner::Ledger,
    }
}

#[test]
fn every_format_belongs_to_its_signer() {
    for op in OPERATIONS {
        for signer in [KeySigner::Encrypted, KeySigner::Derived, KeySigner::Ledger] {
            match input_format(op, signer) {
                Ok(format) => assert_eq!(owner(format), signer),
                Err(e) => {
                    assert_eq!(e, ApiError::ExportNotAllowed);
                    assert_eq!((op, signer), (KeyOperation::ExportKey, KeySigner::Ledger));
                }
            }
        }
    }
}

#[test]
fn error_messages() {
    assert_eq!(ApiError::InvalidBase64("Invalid byte 32, offset 2.".to_string()).message(), "Invalid byte 32, offset 2.");
    assert_eq!(ApiError::InvalidPublicKey("Odd number of digits".to_string()).message(), "Odd number of digits");
    let bad_keys = ApiError::BadKeys("Odd number of digits".to_string());
    assert_eq!(bad_keys.message(), "Bad keys");
    assert_eq!(bad_keys.cause(), Some("Odd number of digits".to_string()));
    assert_eq!(ApiError::ExportNotAllowed.cause(), None);
}
