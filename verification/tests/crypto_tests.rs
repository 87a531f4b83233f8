use civicconnect::crypto::{generate_keypair, generate_nonce, hash_email, hash_password,
    sign_message, verify_password, verify_signature, Signature};

#[test]
fn test_password_hashing() {
    let password = "SecurePassword123!";
    let hash = hash_password(password).unwrap();

    assert!(verify_password(password, &hash).unwrap());
    assert!(!verify_password("WrongPassword", &hash).unwrap());
}

#[test]
fn test_ed25519_signatures() {
    let (signing_key, verifying_key) = generate_keypair();
    let message = b"Test message for signing";

    let signature = sign_message(&signing_key, message);
    assert!(verify_signature(&verifying_key, message, &signature));

    // Wrong message should fail
    assert!(!verify_signature(&verifying_key, b"Wrong message", &signature));
}

#[test]
fn test_nonce_generation() {
    let nonce1 = generate_nonce();
    let nonce2 = generate_nonce();

    // Should be 64 hex characters (32 bytes)
    assert_eq!(nonce1.len(), 64);
    assert_eq!(nonce2.len(), 64);

    // Should be unique
    assert_ne!(nonce1, nonce2);
}

#[test]
fn test_email_hashing() {
    let email = "User@Example.COM";
    let hash1 = hash_email(email);
    let hash2 = hash_email("user@example.com");

    // Should be case-insensitive
    assert_eq!(hash1, hash2);

    // Should be 64 hex characters (SHA256)
    assert_eq!(hash1.len(), 64);
}

#[test]
fn test_email_hash_exact_value() {
    // SHA-256 of the empty string, hex encoded.
    assert_eq!(
        hash_email(""),
        "e3b0c44298fc1c149afbf4c8996fb92427ae41e4649b934ca495991b7852b855"
    );
}

#[test]
fn test_nonce_is_lowercase_hex() {
    let nonce = generate_nonce();
    assert!(nonce.chars().all(|c| c.is_ascii_hexdigit() && !c.is_ascii_uppercase()));
}

#[test]
fn test_signature_bit_flips_fail() {
    let (signing_key, verifying_key) = generate_keypair();
    let message = b"attendance claim";
    let signature = sign_message(&signing_key, message);

    for bit in 0..(signature.bytes().len() * 8) {
        let mut tampered = signature.bytes().clone();
        tampered[bit / 8] ^= 1 << (bit % 8);
        let tampered_sig = Signature::from_bytes(tampered).unwrap();
        assert!(!verify_signature(&verifying_key, message, &tampered_sig));
    }
}

#[test]
fn test_message_bit_flips_fail() {
    let (signing_key, verifying_key) = generate_keypair();
    let message = b"attendance claim";
    let signature = sign_message(&signing_key, message);

    for bit in 0..(message.len() * 8) {
        let mut tampered = message.to_vec();
        tampered[bit / 8] ^= 1 << (bit % 8);
        assert!(!verify_signature(&verifying_key, &tampered, &signature));
    }
}
