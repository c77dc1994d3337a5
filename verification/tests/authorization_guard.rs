use ed25519_dalek::{ExpandedSecretKey, PublicKey, SecretKey};
use notebot::authorization::{decode_hex, public_key_is_valid, DiscordAuthorization, ServiceError};

fn hex_of(bytes: &[u8]) -> String {
    let mut s = String::new();
    for b in bytes {
        s.push_str(&format!("{:02x}", b));
    }
    s
}

fn test_keypair() -> (ExpandedSecretKey, PublicKey) {
    let secret = SecretKey::from_bytes(&[7u8; 32]).expect("secret key");
    let public = PublicKey::from(&secret);
    (ExpandedSecretKey::from(&secret), public)
}

#[test]
fn decode_hex_exact_values() {
    assert_eq!(decode_hex("00ff10"), Some(vec![0u8, 255, 16]));
    assert_eq!(decode_hex("AB"), Some(vec![171u8]));
    assert_eq!(decode_hex("aB"), Some(vec![171u8]));
    assert_eq!(decode_hex(""), Some(vec![]));
}

#[test]
fn decode_hex_rejects_malformed_strings() {
    assert_eq!(decode_hex("f"), None);
    assert_eq!(decode_hex("g0"), None);
    assert_eq!(decode_hex("0x10"), None);
    assert_eq!(decode_hex("0 1"), None);
}

#[test]
fn valid_signature_passes_and_returns_original_body() {
    let (expanded, public) = test_keypair();
    let timestamp = "1659995995";
    let body = br#"{"type":1}"#.to_vec();
    let mut message = timestamp.as_bytes().to_vec();
    message.extend_from_slice(&body);
    let signature = expanded.sign(&message, &public);
    let sig_hex = hex_of(&signature.to_bytes());

    let guard = DiscordAuthorization::new(public.to_bytes().to_vec());
    let restored = guard.check_request(Some(sig_hex.as_str()), Some(timestamp), body.clone());
    assert_eq!(restored, Ok(body));
}

#[test]
fn tampered_body_is_rejected() {
    let (expanded, public) = test_keypair();
    let timestamp = "1659995995";
    let body = br#"{"type":1}"#.to_vec();
    let mut message = timestamp.as_bytes().to_vec();
    message.extend_from_slice(&body);
    let signature = expanded.sign(&message, &public);
    let sig_hex = hex_of(&signature.to_bytes());

    let guard = DiscordAuthorization::new(public.to_bytes().to_vec());
    let tampered = br#"{"type":2}"#.to_vec();
    let r = guard.check_request(Some(sig_hex.as_str()), Some(timestamp), tampered);
    assert_eq!(r, Err(ServiceError::Unauthorized));
}

#[test]
fn wrong_key_is_rejected() {
    let (expanded, public) = test_keypair();
    let timestamp = "1659995995";
    let body = br#"{"type":1}"#.to_vec();
    let mut message = timestamp.as_bytes().to_vec();
    message.extend_from_slice(&body);
    let signature = expanded.sign(&message, &public);
    let sig_hex = hex_of(&signature.to_bytes());

    let other_secret = SecretKey::from_bytes(&[9u8; 32]).expect("secret key");
    let other_public = PublicKey::from(&other_secret);
    let guard = DiscordAuthorization::new(other_public.to_bytes().to_vec());
    let r = guard.check_request(Some(sig_hex.as_str()), Some(timestamp), body);
    assert_eq!(r, Err(ServiceError::Unauthorized));
}

#[test]
fn missing_headers_are_rejected() {
    let (_, public) = test_keypair();
    let guard = DiscordAuthorization::new(public.to_bytes().to_vec());
    let body = br#"{"type":1}"#.to_vec();
    assert_eq!(
        guard.check_request(None, Some("1659995995"), body.clone()),
        Err(ServiceError::Unauthorized)
    );
    assert_eq!(
        guard.check_request(Some("00ff"), None, body.clone()),
        Err(ServiceError::Unauthorized)
    );
    assert_eq!(
        guard.check_request(Some("not hex at all"), Some("1659995995"), body),
        Err(ServiceError::Unauthorized)
    );
}

#[test]
fn different_timestamp_is_rejected() {
    let (expanded, public) = test_keypair();
    let timestamp = "1659995995";
    let body = br#"{"type":1}"#.to_vec();
    let mut message = timestamp.as_bytes().to_vec();
    message.extend_from_slice(&body);
    let signature = expanded.sign(&message, &public);
    let sig_hex = hex_of(&signature.to_bytes());

    let guard = DiscordAuthorization::new(public.to_bytes().to_vec());
    let r = guard.check_request(Some(sig_hex.as_str()), Some("1659995996"), body);
    assert_eq!(r, Err(ServiceError::Unauthorized));
}

#[test]
fn public_key_validity_is_decided_by_the_bytes() {
    let (_, public) = test_keypair();
    assert!(public_key_is_valid(&public.to_bytes().to_vec()));
    assert!(!public_key_is_valid(&vec![1u8; 31]));
    assert!(!public_key_is_valid(&vec![]));
}

#[test]
fn unauthorized_surfaces_opaquely() {
    let e = ServiceError::Unauthorized;
    assert_eq!(e.status_code(), 401);
    assert_eq!(e.response_body(), "{}");
}
