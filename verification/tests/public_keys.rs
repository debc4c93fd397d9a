use nekoton_bridge::error::ApiError;
use nekoton_bridge::keys::{parse_public_key, parse_public_keys, public_keys_hex};

fn key(seed: u8) -> Vec<u8> {
    let secret = ed25519_dalek::SecretKey::from_bytes(&[seed; 32]).unwrap();
    ed25519_dalek::PublicKey::from(&secret).as_bytes().to_vec()
}

fn not_a_point() -> Vec<u8> {
    let mut bytes = vec![0u8; 32];
    bytes[0] = 2;
    bytes
}

#[test]
fn public_keys_are_written_as_lower_case_hex() {
    let keys = vec![vec![0u8; 32], vec![0xABu8; 32], vec![0x01, 0xFE]];
    let texts = public_keys_hex(&keys);
    assert_eq!(texts.len(), 3);
    assert_eq!(texts[0], "0".repeat(64));
    assert_eq!(texts[1], "ab".repeat(32));
    assert_eq!(texts[2], "01fe");
}

#[test]
fn no_public_keys_give_no_texts() {
    assert!(public_keys_hex(&Vec::new()).is_empty());
}

#[test]
fn public_key_reads_hex_of_either_case() {
    let k = key(1);
    let lower = public_keys_hex(&vec![k.clone()]).remove(0);
    assert_eq!(parse_public_key(&lower), Ok(k.clone()));
    assert_eq!(parse_public_key(&lower.to_uppercase()), Ok(k));
}

#[test]
fn public_key_of_wrong_length_is_refused() {
    let text = public_keys_hex(&vec![key(2)]).remove(0);
    let length_error = ApiError::InvalidPublicKey(
        "signature error: PublicKey must be 32 bytes in length".to_string(),
    );
    assert_eq!(parse_public_key(&text[..62].to_string()), Err(length_error.clone()));
    assert_eq!(parse_public_key(&format!("{}00", text)), Err(length_error.clone()));
    assert_eq!(parse_public_key(&String::new()), Err(length_error));
}

#[test]
fn public_key_with_odd_length_or_bad_digit_is_refused() {
    let text = public_keys_hex(&vec![key(3)]).remove(0);
    assert_eq!(
        parse_public_key(&text[..63].to_string()),
        Err(ApiError::InvalidPublicKey("Odd number of digits".to_string()))
    );
    let bad = format!("{}zz", &text[..62]);
    assert_eq!(
        parse_public_key(&bad),
        Err(ApiError::InvalidPublicKey("Invalid character 'z' at position 62".to_string()))
    );
    let non_ascii = format!("{}é", &text[..62]);
    assert!(matches!(parse_public_key(&non_ascii), Err(ApiError::InvalidPublicKey(_))));
}

#[test]
fn bytes_off_the_curve_are_refused() {
    let text = public_keys_hex(&vec![not_a_point()]).remove(0);
    assert_eq!(text, format!("02{}", "0".repeat(62)));
    assert_eq!(
        parse_public_key(&text),
        Err(ApiError::InvalidPublicKey(
            "signature error: Cannot decompress Edwards point".to_string()
        ))
    );
}

#[test]
fn listed_public_keys_read_back_as_the_same_keys() {
    let keys = vec![key(0), key(200), key(77)];
    let texts = public_keys_hex(&keys);
    for (text, k) in texts.iter().zip(keys.iter()) {
        assert_eq!(text.len(), 64);
        assert_eq!(&parse_public_key(text).unwrap(), k);
    }
    assert_eq!(parse_public_keys(&texts), Ok(keys));
}

#[test]
fn one_bad_key_refuses_the_list() {
    let mut texts = public_keys_hex(&vec![key(4), key(5), key(6)]);
    texts[1] = "xy".repeat(32);
    assert!(matches!(parse_public_keys(&texts), Err(ApiError::InvalidPublicKey(_))));
    assert_eq!(parse_public_keys(&Vec::new()), Ok(Vec::new()));
}
