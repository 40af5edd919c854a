//! Post-quantum cryptography: Dilithium for signatures, Kyber for key
//! encapsulation.
//!
//! The primitives are computed outside this crate and taken on trust. Keys,
//! signed messages, ciphertexts and shared secrets are held as bytes; what is
//! verified is which bytes are handed to a primitive, and which error answers
//! a key or ciphertext of the wrong length.

use vstd::prelude::*;
use crate::error::{CryptoError, ManusError};

verus! {

/// How many bytes a Dilithium5 public key has.
pub const DILITHIUM5_PUBLIC_KEY_BYTES: usize = 2592;

/// How many bytes a Dilithium5 secret key has.
pub const DILITHIUM5_SECRET_KEY_BYTES: usize = 4896;

/// How many bytes a Kyber1024 public key has.
pub const KYBER1024_PUBLIC_KEY_BYTES: usize = 1568;

/// How many bytes a Kyber1024 secret key has.
pub const KYBER1024_SECRET_KEY_BYTES: usize = 3168;

/// How many bytes a Kyber1024 ciphertext has.
pub const KYBER1024_CIPHERTEXT_BYTES: usize = 1568;

/// How many bytes a Kyber1024 shared secret has.
pub const KYBER1024_SHARED_SECRET_BYTES: usize = 32;

/// The signed message that Dilithium5 makes of a message under a secret key.
pub uninterp spec fn dilithium5_signed(message: Seq<u8>, secret_key: Seq<u8>) -> Seq<u8>;

/// The message that Dilithium5 opens a signed message to under a public key,
/// or nothing where the signature does not hold.
pub uninterp spec fn dilithium5_opened(signed_message: Seq<u8>, public_key: Seq<u8>) -> Option<
    Seq<u8>,
>;

/// The shared secret that Kyber1024 decapsulates from a ciphertext under a
/// secret key.
pub uninterp spec fn kyber1024_decapsulated(ciphertext: Seq<u8>, secret_key: Seq<u8>) -> Seq<u8>;

/// Calls `pqcrypto_dilithium::dilithium5::keypair` and hands out the bytes of
/// the two keys, the public one first. Claimed: each key has the length of
/// its kind. The keys come from the system's random source.
#[verifier::external_body]
fn dilithium5_keypair() -> (keys: (Vec<u8>, Vec<u8>))
    ensures
        keys.0@.len() == DILITHIUM5_PUBLIC_KEY_BYTES,
        keys.1@.len() == DILITHIUM5_SECRET_KEY_BYTES,
{
    let (public_key, secret_key) = pqcrypto_dilithium::dilithium5::keypair();
    (
        pqcrypto_traits::sign::PublicKey::as_bytes(&public_key).to_vec(),
        pqcrypto_traits::sign::SecretKey::as_bytes(&secret_key).to_vec(),
    )
}

/// Calls `pqcrypto_dilithium::dilithium5::sign` with the secret key read from
/// its bytes. Claimed: a key of another length than a secret key's is refused
/// and every other is taken; the signed message depends on the message and
/// the key alone.
#[verifier::external_body]
fn dilithium5_sign(message: &[u8], secret_key: &[u8]) -> (signed: Option<Vec<u8>>)
    ensures
        match signed {
            Some(bytes) => secret_key@.len() == DILITHIUM5_SECRET_KEY_BYTES && bytes@
                == dilithium5_signed(message@, secret_key@),
            None => secret_key@.len() != DILITHIUM5_SECRET_KEY_BYTES,
        },
{
    match <pqcrypto_dilithium::dilithium5::SecretKey as pqcrypto_traits::sign::SecretKey>::from_bytes(secret_key) {
        Ok(key) => {
            let signed = pqcrypto_dilithium::dilithium5::sign(message, &key);
            Some(pqcrypto_traits::sign::SignedMessage::as_bytes(&signed).to_vec())
        },
        Err(_) => None,
    }
}

/// What opening a signed message gave.
pub enum Opened {
    /// The key does not have the length of a public key.
    BadKey,
    /// The signature does not hold.
    Rejected,
    /// The signature holds on this message.
    Message(Vec<u8>),
}

/// Calls `pqcrypto_dilithium::dilithium5::open` with the public key and the
/// signed message read from their bytes. Claimed: a key of another length
/// than a public key's is refused; under every other key the outcome depends
/// on the signed message and the key alone.
#[verifier::external_body]
fn dilithium5_open(signed_message: &[u8], public_key: &[u8]) -> (opened: Opened)
    ensures
        match opened {
            Opened::BadKey => public_key@.len() != DILITHIUM5_PUBLIC_KEY_BYTES,
            Opened::Rejected => public_key@.len() == DILITHIUM5_PUBLIC_KEY_BYTES
                && dilithium5_opened(signed_message@, public_key@) is None,
            Opened::Message(message) => public_key@.len() == DILITHIUM5_PUBLIC_KEY_BYTES
                && dilithium5_opened(signed_message@, public_key@) == Some(message@),
        },
{
    let key = <pqcrypto_dilithium::dilithium5::PublicKey as pqcrypto_traits::sign::PublicKey>::from_bytes(public_key);
    let signed = <pqcrypto_dilithium::dilithium5::SignedMessage as pqcrypto_traits::sign::SignedMessage>::from_bytes(signed_message);
    match (key, signed) {
        (Ok(key), Ok(signed)) => match pqcrypto_dilithium::dilithium5::open(&signed, &key) {
            Ok(message) => Opened::Message(message),
            Err(_) => Opened::Rejected,
        },
        _ => Opened::BadKey,
    }
}

/// Calls `pqcrypto_kyber::kyber1024::keypair` and hands out the bytes of the
/// two keys, the public one first. Claimed: each key has the length of its
/// kind. The keys come from the system's random source.
#[verifier::external_body]
fn kyber1024_keypair() -> (keys: (Vec<u8>, Vec<u8>))
    ensures
        keys.0@.len() == KYBER1024_PUBLIC_KEY_BYTES,
        keys.1@.len() == KYBER1024_SECRET_KEY_BYTES,
{
    let (public_key, secret_key) = pqcrypto_kyber::kyber1024::keypair();
    (
        pqcrypto_traits::kem::PublicKey::as_bytes(&public_key).to_vec(),
        pqcrypto_traits::kem::SecretKey::as_bytes(&secret_key).to_vec(),
    )
}

/// Calls `pqcrypto_kyber::kyber1024::encapsulate` with the public key read
/// from its bytes, and hands out the bytes of the shared secret and of the
/// ciphertext. Claimed: a key of another length than a public key's is
/// refused and every other is taken; secret and ciphertext have the lengths
/// of their kinds. Both come from the system's random source.
#[verifier::external_body]
fn kyber1024_encapsulate(public_key: &[u8]) -> (sealed: Option<(Vec<u8>, Vec<u8>)>)
    ensures
        match sealed {
            Some(pair) => public_key@.len() == KYBER1024_PUBLIC_KEY_BYTES && pair.0@.len()
                == KYBER1024_SHARED_SECRET_BYTES && pair.1@.len() == KYBER1024_CIPHERTEXT_BYTES,
            None => public_key@.len() != KYBER1024_PUBLIC_KEY_BYTES,
        },
{
    match <pqcrypto_kyber::kyber1024::PublicKey as pqcrypto_traits::kem::PublicKey>::from_bytes(public_key) {
        Ok(key) => {
            let (secret, ciphertext) = pqcrypto_kyber::kyber1024::encapsulate(&key);
            Some(
                (
                    pqcrypto_traits::kem::SharedSecret::as_bytes(&secret).to_vec(),
                    pqcrypto_traits::kem::Ciphertext::as_bytes(&ciphertext).to_vec(),
                ),
            )
        },
        Err(_) => None,
    }
}

/// Calls `pqcrypto_kyber::kyber1024::decapsulate` with the ciphertext and the
/// secret key read from their bytes. Made only with a ciphertext and a key of
/// the lengths of their kinds. Claimed: the shared secret depends on the
/// ciphertext and the key alone, and has the length of its kind.
#[verifier::external_body]
fn kyber1024_decapsulate(ciphertext: &[u8], secret_key: &[u8]) -> (secret: Vec<u8>)
    requires
        ciphertext@.len() == KYBER1024_CIPHERTEXT_BYTES,
        secret_key@.len() == KYBER1024_SECRET_KEY_BYTES,
    ensures
        secret@ == kyber1024_decapsulated(ciphertext@, secret_key@),
        secret@.len() == KYBER1024_SHARED_SECRET_BYTES,
{
    let sealed = <pqcrypto_kyber::kyber1024::Ciphertext as pqcrypto_traits::kem::Ciphertext>::from_bytes(ciphertext).unwrap();
    let key = <pqcrypto_kyber::kyber1024::SecretKey as pqcrypto_traits::kem::SecretKey>::from_bytes(secret_key).unwrap();
    let secret = pqcrypto_kyber::kyber1024::decapsulate(&sealed, &key);
    pqcrypto_traits::kem::SharedSecret::as_bytes(&secret).to_vec()
}

/// The error for a key of the wrong length.
pub open spec fn bad_key(expected: usize, actual: nat) -> ManusError {
    ManusError::Crypto(CryptoError::BadKeyLength { expected, actual: actual as usize })
}

/// What verifying answers for what opening gave: the message where the
/// signature holds, and an error where it does not or the key is no key.
pub fn verified_message(opened: Opened, key_len: usize) -> (r: Result<Vec<u8>, ManusError>)
    ensures
        match opened {
            Opened::Message(message) => r == Ok::<Vec<u8>, ManusError>(message),
            Opened::Rejected => r == Err::<Vec<u8>, ManusError>(
                ManusError::Crypto(CryptoError::VerificationFailed),
            ),
            Opened::BadKey => r == Err::<Vec<u8>, ManusError>(
                bad_key(DILITHIUM5_PUBLIC_KEY_BYTES, key_len as nat),
            ),
        },
{
    match opened {
        Opened::Message(message) => Ok(message),
        Opened::Rejected => Err(ManusError::Crypto(CryptoError::VerificationFailed)),
        Opened::BadKey => Err(
            ManusError::Crypto(
                CryptoError::BadKeyLength {
                    expected: DILITHIUM5_PUBLIC_KEY_BYTES,
                    actual: key_len,
                },
            ),
        ),
    }
}

/// Dilithium keypair for signatures.
#[derive(Debug, Clone, PartialEq, Eq)]
pub struct DilithiumKeypair {
    /// Public key.
    pub public_key: Vec<u8>,
    /// Secret key.
    pub secret_key: Vec<u8>,
}

/// Kyber keypair for key encapsulation.
#[derive(Debug, Clone, PartialEq, Eq)]
pub struct KyberKeypair {
    /// Public key.
    pub public_key: Vec<u8>,
    /// Secret key.
    pub secret_key: Vec<u8>,
}

impl DilithiumKeypair {
    /// Generate a new Dilithium keypair.
    pub fn generate() -> (pair: Self)
        ensures
            pair.public_key@.len() == DILITHIUM5_PUBLIC_KEY_BYTES,
            pair.secret_key@.len() == DILITHIUM5_SECRET_KEY_BYTES,
    {
        let (public_key, secret_key) = dilithium5_keypair();
        Self { public_key, secret_key }
    }

    /// Sign a message: the signed message, which holds the message and the
    /// signature on it. A secret key of the wrong length is refused.
    pub fn sign(&self, message: &[u8]) -> (r: Result<Vec<u8>, ManusError>)
        ensures
            match r {
                Ok(signed) => self.secret_key@.len() == DILITHIUM5_SECRET_KEY_BYTES && signed@
                    == dilithium5_signed(message@, self.secret_key@),
                Err(e) => self.secret_key@.len() != DILITHIUM5_SECRET_KEY_BYTES && e == bad_key(
                    DILITHIUM5_SECRET_KEY_BYTES,
                    self.secret_key@.len(),
                ),
            },
    {
        match dilithium5_sign(message, self.secret_key.as_slice()) {
            Some(signed) => Ok(signed),
            None => Err(
                ManusError::Crypto(
                    CryptoError::BadKeyLength {
                        expected: DILITHIUM5_SECRET_KEY_BYTES,
                        actual: self.secret_key.len(),
                    },
                ),
            ),
        }
    }

    /// Verify a signed message: the message it holds, where the signature on
    /// it holds under the public key.
    pub fn verify(public_key: &[u8], signed_message: &[u8]) -> (r: Result<Vec<u8>, ManusError>)
        ensures
            match r {
                Ok(message) => public_key@.len() == DILITHIUM5_PUBLIC_KEY_BYTES
                    && dilithium5_opened(signed_message@, public_key@) == Some(message@),
                Err(e) => if public_key@.len() != DILITHIUM5_PUBLIC_KEY_BYTES {
                    e == bad_key(DILITHIUM5_PUBLIC_KEY_BYTES, public_key@.len())
                } else {
                    dilithium5_opened(signed_message@, public_key@) is None && e
                        == ManusError::Crypto(CryptoError::VerificationFailed)
                },
            },
    {
        verified_message(dilithium5_open(signed_message, public_key), public_key.len())
    }
}

impl KyberKeypair {
    /// Generate a new Kyber keypair.
    pub fn generate() -> (pair: Self)
        ensures
            pair.public_key@.len() == KYBER1024_PUBLIC_KEY_BYTES,
            pair.secret_key@.len() == KYBER1024_SECRET_KEY_BYTES,
    {
        let (public_key, secret_key) = kyber1024_keypair();
        Self { public_key, secret_key }
    }

    /// Encapsulate a shared secret: the secret, and the ciphertext that
    /// carries it to the holder of the secret key. A public key of the wrong
    /// length is refused.
    pub fn encapsulate(public_key: &[u8]) -> (r: Result<(Vec<u8>, Vec<u8>), ManusError>)
        ensures
            match r {
                Ok(pair) => public_key@.len() == KYBER1024_PUBLIC_KEY_BYTES && pair.0@.len()
                    == KYBER1024_SHARED_SECRET_BYTES && pair.1@.len()
                    == KYBER1024_CIPHERTEXT_BYTES,
                Err(e) => public_key@.len() != KYBER1024_PUBLIC_KEY_BYTES && e == bad_key(
                    KYBER1024_PUBLIC_KEY_BYTES,
                    public_key@.len(),
                ),
            },
    {
        match kyber1024_encapsulate(public_key) {
            Some(pair) => Ok(pair),
            None => Err(
                ManusError::Crypto(
                    CryptoError::BadKeyLength {
                        expected: KYBER1024_PUBLIC_KEY_BYTES,
                        actual: public_key.len(),
                    },
                ),
            ),
        }
    }

    /// Decapsulate a shared secret. A ciphertext of the wrong length is
    /// refused, then a secret key of the wrong length.
    pub fn decapsulate(&self, ciphertext: &[u8]) -> (r: Result<Vec<u8>, ManusError>)
        ensures
            match r {
                Ok(secret) => ciphertext@.len() == KYBER1024_CIPHERTEXT_BYTES
                    && self.secret_key@.len() == KYBER1024_SECRET_KEY_BYTES && secret@
                    == kyber1024_decapsulated(ciphertext@, self.secret_key@),
                Err(e) => if ciphertext@.len() != KYBER1024_CIPHERTEXT_BYTES {
                    e == ManusError::Crypto(
                        CryptoError::BadCiphertextLength {
                            expected: KYBER1024_CIPHERTEXT_BYTES,
                            actual: ciphertext@.len() as usize,
                        },
                    )
                } else {
                    self.secret_key@.len() != KYBER1024_SECRET_KEY_BYTES && e == bad_key(
                        KYBER1024_SECRET_KEY_BYTES,
                        self.secret_key@.len(),
                    )
                },
            },
    {
        if ciphertext.len() != KYBER1024_CIPHERTEXT_BYTES {
            return Err(
                ManusError::Crypto(
                    CryptoError::BadCiphertextLength {
                        expected: KYBER1024_CIPHERTEXT_BYTES,
                        actual: ciphertext.len(),
                    },
                ),
            );
        }
        if self.secret_key.len() != KYBER1024_SECRET_KEY_BYTES {
            return Err(
                ManusError::Crypto(
                    CryptoError::BadKeyLength {
                        expected: KYBER1024_SECRET_KEY_BYTES,
                        actual: self.secret_key.len(),
                    },
                ),
            );
        }
        Ok(kyber1024_decapsulate(ciphertext, self.secret_key.as_slice()))
    }
}

} // verus!
