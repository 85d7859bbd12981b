//! Tests of the key-material decoder: the accepted encodings, the length
//! rule, the generation paths, and the error cases.

use auth_example::hex::{hex_decode, hex_encode, HexError};
use auth_example::secret::{KeyError, SecretKey, MIN_KEY_LEN};
use base64::Engine;

fn sample_bytes(n: usize) -> Vec<u8> {
    (0..n).map(|i| (i % 251) as u8).collect()
}

fn b64(bytes: &[u8]) -> String {
    base64::engine::general_purpose::STANDARD.encode(bytes)
}

fn hex_lower(bytes: &[u8]) -> String {
    String::from_utf8(hex_encode(bytes)).unwrap()
}

#[test]
fn base64_of_64_bytes_is_accepted() {
    let material = sample_bytes(64);
    let text = format!("base64:{}", b64(&material));
    let key = SecretKey::from_text(&text).unwrap();
    assert_eq!(key.clone_key(), material);
    assert_eq!(key.len(), 64);
}

#[test]
fn hex_of_64_bytes_is_accepted() {
    let material = sample_bytes(64);
    let text = format!("hex:{}", hex_lower(&material));
    let key = SecretKey::from_text(&text).unwrap();
    assert_eq!(key.clone_key(), material);
}

#[test]
fn decoded_length_equals_byte_count() {
    for n in [64usize, 70, 100, 128] {
        let material = sample_bytes(n);
        let key = SecretKey::from_text(&format!("base64:{}", b64(&material))).unwrap();
        assert_eq!(key.len(), n);
        let key = SecretKey::from_text(&format!("hex:{}", hex_lower(&material))).unwrap();
        assert_eq!(key.len(), n);
    }
}

#[test]
fn uppercase_hex_is_accepted() {
    let material = sample_bytes(64);
    let text = format!("hex:{}", hex_lower(&material).to_uppercase());
    let key = SecretKey::from_text(&text).unwrap();
    assert_eq!(key.clone_key(), material);
}

#[test]
fn prefixless_base64_is_accepted() {
    let material = sample_bytes(96);
    let key = SecretKey::from_text(&b64(&material)).unwrap();
    assert_eq!(key.clone_key(), material);
}

#[test]
fn prefixless_hex_is_accepted() {
    // 'f' repeated is not valid base64 length-wise here, so the hex
    // fallback must pick it up.
    let text = "ff".repeat(64) + "a1";
    let key = SecretKey::from_text(&text).unwrap();
    assert_eq!(key.len(), 65);
}

#[test]
fn short_base64_is_too_short() {
    let material = sample_bytes(32);
    let err = SecretKey::from_text(&format!("base64:{}", b64(&material))).err().unwrap();
    assert_eq!(err, KeyError::TooShort);
}

#[test]
fn short_hex_is_too_short() {
    let material = sample_bytes(32);
    let err = SecretKey::from_text(&format!("hex:{}", hex_lower(&material))).err().unwrap();
    assert_eq!(err, KeyError::TooShort);
}

#[test]
fn short_prefixless_material_is_too_short() {
    let material = sample_bytes(32);
    let err = SecretKey::from_text(&b64(&material)).err().unwrap();
    assert_eq!(err, KeyError::TooShort);
}

#[test]
fn sixty_three_bytes_are_rejected_and_sixty_four_accepted() {
    assert_eq!(SecretKey::from_bytes(sample_bytes(63)).err().unwrap(), KeyError::TooShort);
    let key = SecretKey::from_bytes(sample_bytes(64)).unwrap();
    assert_eq!(key.len(), MIN_KEY_LEN);
}

#[test]
fn hex_and_base64_of_same_bytes_agree() {
    let material = sample_bytes(80);
    let from_hex = SecretKey::from_text(&format!("hex:{}", hex_lower(&material))).unwrap();
    let from_b64 = SecretKey::from_text(&format!("base64:{}", b64(&material))).unwrap();
    assert_eq!(from_hex.clone_key(), from_b64.clone_key());
}

#[test]
fn config_value_renderings_decode_back() {
    let material = sample_bytes(64);
    let hex_value = SecretKey::hex_config_value(&material);
    let key = SecretKey::from_text_bytes(&hex_value).unwrap();
    assert_eq!(key.clone_key(), material);
    let b64_value = SecretKey::base64_config_value(&material);
    let key = SecretKey::from_text_bytes(&b64_value).unwrap();
    assert_eq!(key.clone_key(), material);
    assert!(hex_value.starts_with(b"hex:"));
    assert!(b64_value.starts_with(b"base64:"));
}

#[test]
fn generation_paths_always_succeed() {
    for text in ["", "generate", "GENERATE", "GeNeRaTe", "   ", "  generate  "] {
        let key = SecretKey::from_text(text).unwrap();
        assert!(key.len() >= 64);
    }
}

#[test]
fn invalid_base64_is_reported() {
    let err = SecretKey::from_text("base64:!!!").err().unwrap();
    assert_eq!(err, KeyError::InvalidBase64);
}

#[test]
fn invalid_hex_digit_is_reported() {
    let err = SecretKey::from_text("hex:zz").err().unwrap();
    assert_eq!(err, KeyError::InvalidHex(HexError::InvalidDigit(b'z')));
}

#[test]
fn odd_hex_length_is_reported() {
    let err = SecretKey::from_text("hex:abc").err().unwrap();
    assert_eq!(err, KeyError::InvalidHex(HexError::OddLength));
}

#[test]
fn unrecognized_material_is_reported() {
    let err = SecretKey::from_text("!!!not-a-key!!!").err().unwrap();
    assert_eq!(err, KeyError::Unrecognized);
}

#[test]
fn error_messages_never_contain_material() {
    let material = sample_bytes(32);
    let err = SecretKey::from_text(&format!("hex:{}", hex_lower(&material))).err().unwrap();
    assert_eq!(err.message(), "secret key must be at least 64 bytes after decoding");
    assert_eq!(KeyError::InvalidBase64.message(), "invalid base64 secret key");
    assert_eq!(KeyError::Unrecognized.message(), "secret key must be provided as base64:<...> or hex:<...>");
}

#[test]
fn redaction_placeholder_is_fixed() {
    let key = SecretKey::from_bytes(sample_bytes(64)).unwrap();
    assert_eq!(key.redacted(), "SecretKey(<redacted>)");
}

#[test]
fn clone_copies_material() {
    let key = SecretKey::from_bytes(sample_bytes(64)).unwrap();
    let copy = key.clone();
    assert_eq!(copy.clone_key(), key.clone_key());
}

#[test]
fn hex_codec_round_trips_exact_values() {
    assert_eq!(hex_encode(&[0xab, 0x01, 0xff]), b"ab01ff".to_vec());
    assert_eq!(hex_decode(b"ab01ff").unwrap(), vec![0xab, 0x01, 0xff]);
    assert_eq!(hex_decode(b"AB01FF").unwrap(), vec![0xab, 0x01, 0xff]);
    assert_eq!(hex_decode(b"  ab01  ").unwrap(), vec![0xab, 0x01]);
    assert_eq!(hex_decode(b"").unwrap(), Vec::<u8>::new());
    assert_eq!(hex_decode(b"abc").err().unwrap(), HexError::OddLength);
    assert_eq!(hex_decode(b"ag").err().unwrap(), HexError::InvalidDigit(b'g'));
}
