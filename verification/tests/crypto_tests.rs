use manus_backend::crypto::{DilithiumKeypair, KyberKeypair};
use manus_backend::error::{CryptoError, ManusError};

#[test]
fn test_dilithium_sign_verify() {
    let keypair = DilithiumKeypair::generate();
    let message = b"Hello, quantum-resistant world!";

    let signed = keypair.sign(message).unwrap();
    let verified = DilithiumKeypair::verify(&keypair.public_key, &signed).unwrap();

    assert_eq!(message.to_vec(), verified);
}

#[test]
fn test_kyber_encapsulate_decapsulate() {
    let keypair = KyberKeypair::generate();

    let (shared_secret1, ciphertext) = KyberKeypair::encapsulate(&keypair.public_key).unwrap();
    let shared_secret2 = keypair.decapsulate(&ciphertext).unwrap();

    assert_eq!(shared_secret1, shared_secret2);
}

#[test]
fn dilithium_lengths_and_determinism() {
    let keypair = DilithiumKeypair::generate();
    assert_eq!(keypair.public_key.len(), 2592);
    assert_eq!(keypair.secret_key.len(), 4896);
    let message = b"tick";
    let first = keypair.sign(message).unwrap();
    let second = keypair.sign(message).unwrap();
    assert_eq!(first, second);
    assert_ne!(first, message.to_vec());
    assert!(first.len() > message.len());
    let other = DilithiumKeypair::generate();
    assert_ne!(other.public_key, keypair.public_key);
}

#[test]
fn dilithium_rejects_forgeries_and_bad_keys() {
    let keypair = DilithiumKeypair::generate();
    let other = DilithiumKeypair::generate();
    let mut signed = keypair.sign(b"pay 1").unwrap();
    assert_eq!(
        DilithiumKeypair::verify(&other.public_key, &signed),
        Err(ManusError::Crypto(CryptoError::VerificationFailed))
    );
    let last = signed.len() - 1;
    signed[last] ^= 1;
    assert_eq!(
        DilithiumKeypair::verify(&keypair.public_key, &signed),
        Err(ManusError::Crypto(CryptoError::VerificationFailed))
    );
    assert_eq!(
        DilithiumKeypair::verify(&keypair.public_key, &[]),
        Err(ManusError::Crypto(CryptoError::VerificationFailed))
    );
    assert_eq!(
        DilithiumKeypair::verify(&[1, 2, 3], &signed),
        Err(ManusError::Crypto(CryptoError::BadKeyLength { expected: 2592, actual: 3 }))
    );
    let broken = DilithiumKeypair { public_key: keypair.public_key.clone(), secret_key: vec![0; 10] };
    assert_eq!(
        broken.sign(b"x"),
        Err(ManusError::Crypto(CryptoError::BadKeyLength { expected: 4896, actual: 10 }))
    );
}

#[test]
fn kyber_lengths_and_bad_inputs() {
    let keypair = KyberKeypair::generate();
    assert_eq!(keypair.public_key.len(), 1568);
    assert_eq!(keypair.secret_key.len(), 3168);
    let (secret, ciphertext) = KyberKeypair::encapsulate(&keypair.public_key).unwrap();
    assert_eq!(secret.len(), 32);
    assert_eq!(ciphertext.len(), 1568);
    assert_ne!(secret, ciphertext[..32].to_vec());
    assert_eq!(keypair.decapsulate(&ciphertext), keypair.decapsulate(&ciphertext));
    assert_eq!(
        KyberKeypair::encapsulate(&[0; 7]),
        Err(ManusError::Crypto(CryptoError::BadKeyLength { expected: 1568, actual: 7 }))
    );
    assert_eq!(
        keypair.decapsulate(&[0; 5]),
        Err(ManusError::Crypto(CryptoError::BadCiphertextLength { expected: 1568, actual: 5 }))
    );
    let broken = KyberKeypair { public_key: vec![], secret_key: vec![1] };
    assert_eq!(
        broken.decapsulate(&ciphertext),
        Err(ManusError::Crypto(CryptoError::BadKeyLength { expected: 3168, actual: 1 }))
    );
    let other = KyberKeypair::generate();
    assert_ne!(other.decapsulate(&ciphertext).unwrap(), secret);
}
