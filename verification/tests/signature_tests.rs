use ed25519_dalek::Signer;
use webhook_responder::signature::PublicKey;
use webhook_responder::SignatureCheck;

fn keypair() -> (ed25519_dalek::SigningKey, PublicKey) {
    let signing = ed25519_dalek::SigningKey::from_bytes(&[7u8; 32]);
    let key_bytes = signing.verifying_key().to_bytes();
    let key = PublicKey::from_bytes(&key_bytes).expect("valid key bytes");
    (signing, key)
}

fn sign_hex(signing: &ed25519_dalek::SigningKey, timestamp: &[u8], body: &[u8]) -> Vec<u8> {
    let mut msg = timestamp.to_vec();
    msg.extend_from_slice(body);
    hex::encode(signing.sign(&msg).to_bytes()).into_bytes()
}

#[test]
fn sig_roundtrip_authentic() {
    let (signing, key) = keypair();
    let body = b"{\"type\":1}";
    let ts = b"1700000000".to_vec();
    let sig = sign_hex(&signing, &ts, body);
    let r = webhook_responder::signature::validate_discord_signature(
        &key,
        body,
        Some(&sig),
        Some(&ts),
    );
    assert_eq!(r, SignatureCheck::Authentic);
}

#[test]
fn sig_rejects_mutated_body() {
    let (signing, key) = keypair();
    let body = b"{\"type\":1}";
    let ts = b"1700000000".to_vec();
    let sig = sign_hex(&signing, &ts, body);
    let mut other = body.to_vec();
    other[0] ^= 0x01;
    let r = webhook_responder::signature::validate_discord_signature(
        &key,
        &other,
        Some(&sig),
        Some(&ts),
    );
    assert_eq!(r, SignatureCheck::Rejected);
}

#[test]
fn sig_rejects_signature_over_other_timestamp() {
    let (signing, key) = keypair();
    let body = b"{\"type\":1}";
    let signed_ts = b"1700000000".to_vec();
    let sent_ts = b"1700000001".to_vec();
    let sig = sign_hex(&signing, &signed_ts, body);
    let r = webhook_responder::signature::validate_discord_signature(
        &key,
        body,
        Some(&sig),
        Some(&sent_ts),
    );
    assert_eq!(r, SignatureCheck::Rejected);
}

#[test]
fn sig_rejects_mutated_signature() {
    let (signing, key) = keypair();
    let body = b"{\"type\":1}";
    let ts = b"1700000000".to_vec();
    let mut raw = {
        let mut msg = ts.clone();
        msg.extend_from_slice(body);
        signing.sign(&msg).to_bytes()
    };
    raw[0] ^= 0x01;
    let sig = hex::encode(raw).into_bytes();
    let r = webhook_responder::signature::validate_discord_signature(
        &key,
        body,
        Some(&sig),
        Some(&ts),
    );
    assert_eq!(r, SignatureCheck::Rejected);
}

#[test]
fn sig_rejects_missing_signature_header() {
    let (_, key) = keypair();
    let ts = b"1700000000".to_vec();
    let r = webhook_responder::signature::validate_discord_signature(
        &key,
        b"body",
        None,
        Some(&ts),
    );
    assert_eq!(r, SignatureCheck::Rejected);
}

#[test]
fn sig_rejects_missing_timestamp_header() {
    let (signing, key) = keypair();
    let body = b"body";
    let ts = b"1700000000".to_vec();
    let sig = sign_hex(&signing, &ts, body);
    let r = webhook_responder::signature::validate_discord_signature(&key, body, Some(&sig), None);
    assert_eq!(r, SignatureCheck::Rejected);
}

#[test]
fn sig_rejects_malformed_hex() {
    let (_, key) = keypair();
    let ts = b"1700000000".to_vec();
    let sig = vec![b'z'; 128];
    let r = webhook_responder::signature::validate_discord_signature(
        &key,
        b"body",
        Some(&sig),
        Some(&ts),
    );
    assert_eq!(r, SignatureCheck::Rejected);
}

#[test]
fn sig_rejects_odd_length_hex() {
    let (_, key) = keypair();
    let ts = b"1700000000".to_vec();
    let sig = vec![b'a'; 127];
    let r = webhook_responder::signature::validate_discord_signature(
        &key,
        b"body",
        Some(&sig),
        Some(&ts),
    );
    assert_eq!(r, SignatureCheck::Rejected);
}

#[test]
fn sig_rejects_wrong_signature_length() {
    let (_, key) = keypair();
    let ts = b"1700000000".to_vec();
    let sig = vec![b'a'; 64];  // decodes to 32 bytes, not 64
    let r = webhook_responder::signature::validate_discord_signature(
        &key,
        b"body",
        Some(&sig),
        Some(&ts),
    );
    assert_eq!(r, SignatureCheck::Rejected);
}

#[test]
fn parse_public_key_from_hex() {
    let signing = ed25519_dalek::SigningKey::from_bytes(&[9u8; 32]);
    let key_hex = hex::encode(signing.verifying_key().to_bytes());
    assert!(webhook_responder::signature::parse_public_key(key_hex.as_bytes()).is_some());
    // Malformed hex.
    assert!(webhook_responder::signature::parse_public_key(b"zz").is_none());
    // Odd length.
    assert!(webhook_responder::signature::parse_public_key(&key_hex.as_bytes()[1..]).is_none());
    // Wrong decoded length.
    assert!(webhook_responder::signature::parse_public_key(b"abcd").is_none());
}

#[test]
fn public_key_rejects_invalid_encoding() {
    // The y-coordinate 2 is not on the curve: decompression fails.
    let mut bytes = [0u8; 32];
    bytes[0] = 2;
    assert!(PublicKey::from_bytes(&bytes).is_none());
}
