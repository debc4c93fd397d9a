use nekoton_bridge::api::{
    checked_encrypt, checked_sign, checked_sign_data, checked_sign_data_raw, KeyStoreApiBox,
    KeyStoreCall,
};
use nekoton_bridge::error::ApiError;
use nekoton_bridge::signer::{InputFormat, KeySigner};

fn key_text(seed: u8) -> String {
    let secret = ed25519_dalek::SecretKey::from_bytes(&[seed; 32]).unwrap();
    let public = ed25519_dalek::PublicKey::from(&secret);
    public.as_bytes().iter().map(|b| format!("{:02x}", b)).collect()
}

#[test]
fn fake_signer_with_bad_data_is_refused_as_any_signer() {
    let front = KeyStoreApiBox {};
    let refused = ApiError::InvalidBase64("Invalid byte 32, offset 2.".to_string());
    assert_eq!(
        checked_sign(&front, KeySigner::Fake, "ab c".to_string(), String::new(), None).unwrap().unwrap_err(),
        refused
    );
    assert_eq!(
        checked_sign_data(&front, KeySigner::Fake, "ab c".to_string(), String::new(), None).unwrap().unwrap_err(),
        refused
    );
    assert_eq!(
        checked_sign_data_raw(&front, KeySigner::Fake, "ab c".to_string(), String::new(), None).unwrap().unwrap_err(),
        refused
    );
    assert_eq!(
        checked_encrypt(&front, KeySigner::Fake, "ab c".to_string(), vec![], String::new(), String::new())
            .unwrap()
            .unwrap_err(),
        refused
    );
}

#[test]
fn fake_signer_with_bad_keys_is_refused_as_any_signer() {
    let front = KeyStoreApiBox {};
    let outcome = checked_encrypt(&front, KeySigner::Fake, "AAEC".to_string(), vec!["0".to_string()], String::new(), String::new());
    assert_eq!(outcome.unwrap().unwrap_err(), ApiError::BadKeys("Odd number of digits".to_string()));
}

#[test]
fn fake_signer_with_good_data_is_reached() {
    let front = KeyStoreApiBox {};
    assert!(checked_sign(&front, KeySigner::Fake, "AAEC".to_string(), String::new(), None).is_none());
    assert!(checked_sign_data(&front, KeySigner::Fake, "AAEC".to_string(), String::new(), None).is_none());
    assert!(checked_sign_data_raw(&front, KeySigner::Fake, "AAEC".to_string(), String::new(), None).is_none());
    assert!(checked_encrypt(&front, KeySigner::Fake, "AAEC".to_string(), vec![key_text(1)], String::new(), String::new())
        .is_none());
}

#[test]
fn other_signers_get_the_operation_answer() {
    let front = KeyStoreApiBox {};
    match checked_sign(&front, KeySigner::Derived, "AAEC".to_string(), "p".to_string(), Some(3)).unwrap().unwrap() {
        KeyStoreCall::Sign { format, data, input, signature_id } => {
            assert_eq!(format, InputFormat::DerivedKeySignParams);
            assert_eq!(data, vec![0, 1, 2]);
            assert_eq!(input, "p");
            assert_eq!(signature_id, Some(3));
        }
        other => panic!("{:?}", other),
    }
    match checked_sign_data(&front, KeySigner::Ledger, "AAEC".to_string(), "p".to_string(), None).unwrap().unwrap() {
        KeyStoreCall::Sign { format, data, .. } => {
            assert_eq!(format, InputFormat::LedgerSignInput);
            assert_eq!(data.len(), 32);
        }
        other => panic!("{:?}", other),
    }
    match checked_encrypt(&front, KeySigner::Encrypted, "AAEC".to_string(), vec![key_text(2)], "A".to_string(), "i".to_string())
        .unwrap()
        .unwrap()
    {
        KeyStoreCall::Encrypt { format, data, public_keys, .. } => {
            assert_eq!(format, InputFormat::EncryptedKeyPassword);
            assert_eq!(data, vec![0, 1, 2]);
            assert_eq!(public_keys.len(), 1);
        }
        other => panic!("{:?}", other),
    }
}
