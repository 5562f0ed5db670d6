use lol_bot::auth::{check_signature, verify_request};

const PUBLIC_KEY: &str = "3d4017c3e843895a92b70aa74d1b7ebc9c982ccf2ec4968cc0cd55f12af4660c";
const SIGNATURE: &str = "92a009a9f0d4cab8720e820b5f642540a2b27b5416503f8fb3762223ebdb69da085ac1e43e15996e458f3613d0f11d8c387b2eaeb4302aeeb00d291612bb0c00";

/// Signs `message` with a fixed secret key and returns the public key and
/// the signature, both in hexadecimal.
fn sign(message: &[u8]) -> (String, String) {
    let secret = ed25519_dalek::SecretKey::from_bytes(&[7u8; 32]).unwrap();
    let public = ed25519_dalek::PublicKey::from(&secret);
    let expanded = ed25519_dalek::ExpandedSecretKey::from(&secret);
    let signature = expanded.sign(message, &public);
    (hex::encode(public.as_bytes()), hex::encode(signature.to_bytes()))
}

#[test]
fn published_signature_verifies() {
    assert!(verify_request(Some(PUBLIC_KEY), Some(SIGNATURE), Some(""), Some("r")));
    assert!(verify_request(Some(PUBLIC_KEY), Some(SIGNATURE), Some("r"), Some("")));
    assert!(verify_request(
        Some(&PUBLIC_KEY.to_uppercase()),
        Some(&SIGNATURE.to_uppercase()),
        Some("r"),
        Some("")
    ));
}

#[test]
fn signature_covers_timestamp_and_body() {
    let (key, signature) = sign(b"1700000000{\"type\":1}");
    assert!(verify_request(Some(&key), Some(&signature), Some("1700000000"), Some("{\"type\":1}")));
    assert!(verify_request(Some(&key), Some(&signature), Some("17000"), Some("00000{\"type\":1}")));
    assert!(!verify_request(Some(&key), Some(&signature), Some("1700000001"), Some("{\"type\":1}")));
    assert!(!verify_request(Some(&key), Some(&signature), Some("1700000000"), Some("{\"type\":2}")));
    assert!(!verify_request(Some(&key), Some(&signature), Some("{\"type\":1}"), Some("1700000000")));
}

#[test]
fn signature_of_another_key_does_not_verify() {
    let (_, signature) = sign(b"r");
    assert!(!verify_request(Some(PUBLIC_KEY), Some(&signature), Some(""), Some("r")));
    let (key, _) = sign(b"r");
    assert!(!verify_request(Some(&key), Some(SIGNATURE), Some(""), Some("r")));
}

#[test]
fn event_that_lacks_a_part_is_not_signed() {
    assert!(!verify_request(None, Some(SIGNATURE), Some(""), Some("r")));
    assert!(!verify_request(Some(PUBLIC_KEY), None, Some(""), Some("r")));
    assert!(!verify_request(Some(PUBLIC_KEY), Some(SIGNATURE), None, Some("r")));
    assert!(!verify_request(Some(PUBLIC_KEY), Some(SIGNATURE), Some(""), None));
    assert!(!verify_request(None, None, None, None));
}

#[test]
fn unreadable_key_or_signature_is_not_signed() {
    let odd = &PUBLIC_KEY[1..];
    assert!(!verify_request(Some(odd), Some(SIGNATURE), Some(""), Some("r")));
    let not_hex = PUBLIC_KEY.replace('3', "g");
    assert!(!verify_request(Some(&not_hex), Some(SIGNATURE), Some(""), Some("r")));
    let short_key = &PUBLIC_KEY[2..];
    assert!(!verify_request(Some(short_key), Some(SIGNATURE), Some(""), Some("r")));
    let short_signature = &SIGNATURE[2..];
    assert!(!verify_request(Some(PUBLIC_KEY), Some(short_signature), Some(""), Some("r")));
    let high_bits = format!("{}ff", &SIGNATURE[..126]);
    assert!(!verify_request(Some(PUBLIC_KEY), Some(&high_bits), Some(""), Some("r")));
    assert!(!verify_request(Some(""), Some(""), Some(""), Some("")));
    assert!(!verify_request(Some(SIGNATURE), Some(PUBLIC_KEY), Some(""), Some("r")));
}

#[test]
fn check_signature_takes_raw_bytes() {
    let key = hex::decode(PUBLIC_KEY).unwrap();
    let signature = hex::decode(SIGNATURE).unwrap();
    assert!(check_signature(&key, b"r", &signature));
    assert!(!check_signature(&key, b"s", &signature));
    assert!(!check_signature(&key[..31], b"r", &signature));
    assert!(!check_signature(&key, b"r", &signature[..63]));
    assert!(!check_signature(&signature, b"r", &key));
}
