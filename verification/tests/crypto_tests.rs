use afrasyab::crypto::{TokenCipher, NONCE_LEN};
use afrasyab::job::DomainError;

#[test]
fn round_trip() {
    let key = [42u8; 32];
    let cipher = TokenCipher::new(&key);
    let plaintext = b"session-token-or-similar";

    let blob = cipher.encrypt(plaintext);
    assert!(blob.len() > NONCE_LEN);
    assert_ne!(&blob[..NONCE_LEN], &[0u8; NONCE_LEN]);

    let recovered = cipher.decrypt(&blob).unwrap();
    assert_eq!(recovered, plaintext);
}

#[test]
fn sealed_blob_is_nonce_plus_ciphertext_plus_tag() {
    let cipher = TokenCipher::new(&[7u8; 32]);
    let blob = cipher.encrypt(b"abc");
    assert_eq!(blob.len(), NONCE_LEN + 3 + 16);
    // The ciphertext is not the plaintext handed back.
    assert_ne!(&blob[NONCE_LEN..NONCE_LEN + 3], b"abc");
}

#[test]
fn short_blob_is_rejected() {
    let cipher = TokenCipher::new(&[1u8; 32]);
    match cipher.decrypt(&[0u8; 12]) {
        Err(DomainError::Crypto(m)) => assert_eq!(m, "encrypted blob too short"),
        _ => panic!("expected a crypto error"),
    }
}

#[test]
fn tampered_blob_fails_authentication() {
    let cipher = TokenCipher::new(&[9u8; 32]);
    let mut blob = cipher.encrypt(b"payload");
    let last = blob.len() - 1;
    blob[last] ^= 1;
    assert!(matches!(cipher.decrypt(&blob), Err(DomainError::Crypto(_))));
}

#[test]
fn wrong_key_fails_authentication() {
    let blob = TokenCipher::new(&[1u8; 32]).encrypt(b"payload");
    assert!(TokenCipher::new(&[2u8; 32]).decrypt(&blob).is_err());
}
