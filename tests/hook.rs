use gritea::hook::{signature_matches, verify_signature};

const MESSAGE: &[u8] = b"The quick brown fox jumps over the lazy dog";

#[test]
fn signature_of_known_vector() {
    assert!(verify_signature("key", MESSAGE, "97yD9DBThCSxMpjmqm+xQ+9NWaFJRhdZl0edvC0aPNg="));
}

#[test]
fn signature_of_json_payload() {
    let payload = br#"{"ref":"refs/heads/main"}"#;
    assert!(verify_signature("foo", payload, "gQSmpaC5pltCOmDjPA5aITpji//aS1HMZyQQMQqzi9E="));
}

#[test]
fn flipped_payload_byte_fails() {
    let mut payload = MESSAGE.to_vec();
    payload[0] ^= 1;
    assert!(!verify_signature("key", &payload, "97yD9DBThCSxMpjmqm+xQ+9NWaFJRhdZl0edvC0aPNg="));
}

#[test]
fn flipped_secret_byte_fails() {
    assert!(!verify_signature("kez", MESSAGE, "97yD9DBThCSxMpjmqm+xQ+9NWaFJRhdZl0edvC0aPNg="));
}

#[test]
fn raw_tag_is_not_accepted() {
    assert!(!verify_signature("key", MESSAGE, ""));
    assert!(!verify_signature("key", MESSAGE, "f7bc83f430538424b13298e6aa6fb143ef4d59a14946175997479dbc2d1a3cd8"));
}

#[test]
fn signature_comparison_is_exact() {
    assert!(signature_matches("abc=", "abc="));
    assert!(!signature_matches("abc=", "abc"));
    assert!(!signature_matches("abc=", "ABC="));
}
