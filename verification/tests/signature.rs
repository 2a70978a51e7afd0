use ed25519_dalek::{Signer, SigningKey};
use todoist_bot::hex::parse_hex;
use todoist_bot::interactions::signature::{Error, Verifier};

fn to_hex(bytes: &[u8]) -> String {
    let digits = b"0123456789abcdef";
    let mut out = String::new();
    for b in bytes {
        out.push(digits[(b >> 4) as usize] as char);
        out.push(digits[(b & 15) as usize] as char);
    }
    out
}

fn signing_key() -> SigningKey {
    let mut seed = [0u8; 32];
    for (i, b) in seed.iter_mut().enumerate() {
        *b = (i as u8).wrapping_mul(7).wrapping_add(3);
    }
    SigningKey::from_bytes(&seed)
}

fn signed(timestamp: &str, body: &[u8]) -> (String, String) {
    let key = signing_key();
    let mut message = timestamp.as_bytes().to_vec();
    message.extend_from_slice(body);
    let signature = key.sign(&message);
    (to_hex(key.verifying_key().as_bytes()), to_hex(&signature.to_bytes()))
}

#[test]
fn parse_hex_decodes_digit_pairs() {
    assert_eq!(parse_hex::<2>("00ff"), Some([0x00, 0xff]));
    assert_eq!(parse_hex::<3>("0a1B2c"), Some([0x0a, 0x1b, 0x2c]));
    assert_eq!(parse_hex::<0>(""), Some([]));
}

#[test]
fn parse_hex_rejects_wrong_length() {
    assert_eq!(parse_hex::<2>("00f"), None);
    assert_eq!(parse_hex::<2>("00ff0"), None);
    assert_eq!(parse_hex::<2>("00ff00"), None);
    assert_eq!(parse_hex::<1>(""), None);
}

#[test]
fn parse_hex_rejects_other_characters() {
    assert_eq!(parse_hex::<1>("0g"), None);
    assert_eq!(parse_hex::<1>("+f"), None);
    assert_eq!(parse_hex::<1>(" f"), None);
    assert_eq!(parse_hex::<1>("-1"), None);
    assert_eq!(parse_hex::<1>("é"), None);
    assert_eq!(parse_hex::<2>("ab\u{e9}"), None);
}

#[test]
fn try_new_rejects_malformed_key_hex() {
    assert!(matches!(Verifier::try_new("abcd"), Err(Error::PublicKeyFormat)));
    assert!(matches!(Verifier::try_new(""), Err(Error::PublicKeyFormat)));
    let not_hex = "zz".repeat(32);
    assert!(matches!(Verifier::try_new(&not_hex), Err(Error::PublicKeyFormat)));
}

#[test]
fn try_new_rejects_bytes_that_are_no_key() {
    // y = 2 is not the y coordinate of any point on the curve.
    let mut bytes = [0u8; 32];
    bytes[0] = 2;
    assert!(matches!(Verifier::try_new(&to_hex(&bytes)), Err(Error::PublicKey(_))));
}

#[test]
fn verify_accepts_a_valid_signature() {
    let body = br#"{"type":1}"#;
    let (key, signature) = signed("1700000000", body);
    let verifier = Verifier::try_new(&key).unwrap();
    assert!(verifier.verify(&signature, "1700000000", body).is_ok());
}

#[test]
fn verify_accepts_upper_case_hex() {
    let body = b"hello";
    let (key, signature) = signed("42", body);
    let verifier = Verifier::try_new(&key.to_uppercase()).unwrap();
    assert!(verifier.verify(&signature.to_uppercase(), "42", body).is_ok());
}

#[test]
fn verify_signs_timestamp_then_body() {
    let (key, signature) = signed("12", b"34");
    let verifier = Verifier::try_new(&key).unwrap();
    assert!(verifier.verify(&signature, "12", b"34").is_ok());
    // The signed message is the concatenation, so the split does not matter,
    assert!(verifier.verify(&signature, "1", b"234").is_ok());
    // but the order does.
    assert!(matches!(verifier.verify(&signature, "34", b"12"), Err(Error::Signature)));
}

#[test]
fn verify_rejects_malformed_signature_hex() {
    let (key, signature) = signed("1", b"x");
    let verifier = Verifier::try_new(&key).unwrap();
    assert!(matches!(verifier.verify("", "1", b"x"), Err(Error::Signature)));
    assert!(matches!(verifier.verify(&signature[..126], "1", b"x"), Err(Error::Signature)));
    let mut with_sign = signature.clone();
    with_sign.replace_range(0..1, "+");
    assert!(matches!(verifier.verify(&with_sign, "1", b"x"), Err(Error::Signature)));
}

#[test]
fn verify_rejects_any_mutated_signature_byte() {
    let body = b"payload";
    let (key, signature) = signed("1700000000", body);
    let verifier = Verifier::try_new(&key).unwrap();
    let raw = parse_hex::<64>(&signature).unwrap();
    for i in 0..raw.len() {
        let mut mutated = raw;
        mutated[i] ^= 0x01;
        let result = verifier.verify(&to_hex(&mutated), "1700000000", body);
        assert!(matches!(result, Err(Error::Signature)), "byte {}", i);
    }
}

#[test]
fn verify_rejects_any_mutated_timestamp_byte() {
    let body = b"payload";
    let timestamp = "1700000000";
    let (key, signature) = signed(timestamp, body);
    let verifier = Verifier::try_new(&key).unwrap();
    for i in 0..timestamp.len() {
        let mut bytes = timestamp.as_bytes().to_vec();
        bytes[i] = if bytes[i] == b'9' { b'0' } else { bytes[i] + 1 };
        let mutated = String::from_utf8(bytes).unwrap();
        let result = verifier.verify(&signature, &mutated, body);
        assert!(matches!(result, Err(Error::Signature)), "byte {}", i);
    }
}

#[test]
fn verify_rejects_any_mutated_body_byte() {
    let body = b"payload of the request";
    let (key, signature) = signed("1700000000", body);
    let verifier = Verifier::try_new(&key).unwrap();
    for i in 0..body.len() {
        let mut mutated = body.to_vec();
        mutated[i] ^= 0x20;
        let result = verifier.verify(&signature, "1700000000", &mutated);
        assert!(matches!(result, Err(Error::Signature)), "byte {}", i);
    }
}

#[test]
fn verify_rejects_a_signature_under_another_key() {
    let body = b"payload";
    let (_, signature) = signed("1", body);
    let other = SigningKey::from_bytes(&[9u8; 32]);
    let verifier = Verifier::try_new(&to_hex(other.verifying_key().as_bytes())).unwrap();
    assert!(matches!(verifier.verify(&signature, "1", body), Err(Error::Signature)));
}

#[test]
fn error_messages() {
    assert_eq!(Error::Signature.message(), "Invalid signature");
    assert_eq!(Error::PublicKeyFormat.message(), "Invalid public key format");
    let mut bytes = [0u8; 32];
    bytes[0] = 2;
    let err = Verifier::try_new(&to_hex(&bytes)).err().unwrap();
    assert_eq!(err.message(), "Invalid public key");
}
