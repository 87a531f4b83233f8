//! Signature Service: Ed25519 keypairs, signing and verification, secure
//! nonce generation, Argon2 password hashing, and deterministic email
//! digesting.
//!
//! Every call into a cryptographic crate stands behind a trusted wrapper
//! whose contract names the result; all logic around the calls is verified.

use vstd::prelude::*;
use vstd::utf8::encode_utf8;

use crate::error::ApiError;
use crate::hexcode::{lemma_hex_decode_encode, lemma_hex_encode_props, spec_hex_decode,
    spec_hex_encode, spec_is_lower_hex_digit};

verus! {

/// Whether an Argon2 PHC hash string verifies against a password; the
/// outcome of `argon2::Argon2::verify_password`, deterministic in both.
pub uninterp spec fn password_matches(password: Seq<char>, hash: Seq<char>) -> bool;

/// The Ed25519 verifying key derived from 32 signing-key bytes.
pub uninterp spec fn pubkey_of(sk: Seq<u8>) -> Seq<u8>;

/// The Ed25519 signature of a message under a signing key; Ed25519
/// signing is deterministic.
pub uninterp spec fn sig_of(sk: Seq<u8>, msg: Seq<u8>) -> Seq<u8>;

/// Whether 64 signature bytes verify for a message under 32 verifying-key
/// bytes; the outcome of `ed25519_dalek::VerifyingKey::verify`.
pub uninterp spec fn sig_valid(vk: Seq<u8>, msg: Seq<u8>, sig: Seq<u8>) -> bool;

/// The SHA-256 digest of a byte sequence.
pub uninterp spec fn sha256_of(data: Seq<u8>) -> Seq<u8>;

/// The Unicode lowercasing of a character sequence, as `str::to_lowercase`
/// computes it; a function of the characters alone.
pub uninterp spec fn lower_of(s: Seq<char>) -> Seq<char>;

/// Whether a string parses as a PHC-format hash; the outcome of
/// `argon2::password_hash::PasswordHash::new`, deterministic in the string.
pub uninterp spec fn phc_wellformed(hash: Seq<char>) -> bool;

/// An Ed25519 signing (private) key: 32 bytes.
pub struct SigningKey {
    bytes: Vec<u8>,
}

/// An Ed25519 verifying (public) key: 32 bytes.
pub struct VerifyingKey {
    bytes: Vec<u8>,
}

/// An Ed25519 signature: 64 bytes.
pub struct Signature {
    bytes: Vec<u8>,
}

impl View for SigningKey {
    type V = Seq<u8>;

    closed spec fn view(&self) -> Seq<u8> {
        self.bytes@
    }
}

impl View for VerifyingKey {
    type V = Seq<u8>;

    closed spec fn view(&self) -> Seq<u8> {
        self.bytes@
    }
}

impl View for Signature {
    type V = Seq<u8>;

    closed spec fn view(&self) -> Seq<u8> {
        self.bytes@
    }
}

impl SigningKey {
    /// Well-formed: exactly 32 key bytes.
    pub open spec fn wf(&self) -> bool {
        self@.len() == 32
    }

    /// The raw key bytes.
    pub fn bytes(&self) -> (r: &Vec<u8>)
        ensures
            r@ == self@,
    {
        &self.bytes
    }
}

impl VerifyingKey {
    /// Well-formed: exactly 32 key bytes.
    pub open spec fn wf(&self) -> bool {
        self@.len() == 32
    }

    /// The raw key bytes.
    pub fn bytes(&self) -> (r: &Vec<u8>)
        ensures
            r@ == self@,
    {
        &self.bytes
    }

    /// A verifying key from raw bytes; `None` unless exactly 32 bytes.
    pub fn from_bytes(bytes: Vec<u8>) -> (r: Option<VerifyingKey>)
        ensures
            match r {
                Some(k) => k.wf() && k@ == bytes@,
                None => bytes@.len() != 32,
            },
    {
        if bytes.len() == 32 {
            Some(VerifyingKey { bytes })
        } else {
            None
        }
    }
}

impl Signature {
    /// Well-formed: exactly 64 signature bytes.
    pub open spec fn wf(&self) -> bool {
        self@.len() == 64
    }

    /// The raw signature bytes.
    pub fn bytes(&self) -> (r: &Vec<u8>)
        ensures
            r@ == self@,
    {
        &self.bytes
    }

    /// A signature from raw bytes; `None` unless exactly 64 bytes.
    pub fn from_bytes(bytes: Vec<u8>) -> (r: Option<Signature>)
        ensures
            match r {
                Some(s) => s.wf() && s@ == bytes@,
                None => bytes@.len() != 64,
            },
    {
        if bytes.len() == 64 {
            Some(Signature { bytes })
        } else {
            None
        }
    }
}

/// Relies on `argon2::Argon2::hash_password` with default parameters and a
/// fresh OS-random salt: the call fails only for passwords beyond the
/// algorithm's length bound, and the produced PHC string parses and
/// verifies against the same password.
#[verifier::external_body]
fn argon2_hash(password: &str) -> (r: Result<String, ()>)
    ensures
        encode_utf8(password@).len() <= 0xFFFF_FFFF ==> r is Ok,
        r matches Ok(h) ==> password_matches(password@, h@) && phc_wellformed(h@),
{
    let salt = argon2::password_hash::SaltString::generate(
        &mut argon2::password_hash::rand_core::OsRng,
    );
    argon2::PasswordHasher::hash_password(
        &argon2::Argon2::default(),
        password.as_bytes(),
        &salt,
    ).map(|h| h.to_string()).map_err(|_| ())
}

/// Relies on `argon2::Argon2::verify_password` after
/// `argon2::password_hash::PasswordHash::new`: the outcome is deterministic
/// in password and hash string; `Err` exactly when the stored string fails
/// PHC parsing (a mismatch or foreign algorithm comes back `Ok(false)`).
#[verifier::external_body]
fn argon2_check(password: &str, hash: &str) -> (r: Result<bool, ()>)
    ensures
        r is Ok <==> phc_wellformed(hash@),
        r matches Ok(b) ==> b == password_matches(password@, hash@),
{
    let parsed = argon2::password_hash::PasswordHash::new(hash).map_err(|_| ())?;
    Ok(
        argon2::PasswordVerifier::verify_password(
            &argon2::Argon2::default(),
            password.as_bytes(),
            &parsed,
        ).is_ok(),
    )
}

/// Relies on `ed25519_dalek::SigningKey::generate` over the OS random
/// source and on `SigningKey::verifying_key`: 32 fresh signing-key bytes
/// and the verifying key derived from them.
#[verifier::external_body]
fn ed25519_generate() -> (r: (Vec<u8>, Vec<u8>))
    ensures
        r.0@.len() == 32,
        r.1@.len() == 32,
        r.1@ == pubkey_of(r.0@),
{
    let sk = ed25519_dalek::SigningKey::generate(&mut rand::rngs::OsRng);
    let vk = sk.verifying_key();
    (sk.to_bytes().to_vec(), vk.to_bytes().to_vec())
}

/// Relies on `ed25519_dalek::SigningKey::sign`: Ed25519 signing is
/// deterministic, yields 64 bytes, and its output verifies under the
/// verifying key derived from the signing key.
#[verifier::external_body]
fn ed25519_sign(sk: &[u8], msg: &[u8]) -> (r: Vec<u8>)
    requires
        sk@.len() == 32,
    ensures
        r@.len() == 64,
        r@ == sig_of(sk@, msg@),
        sig_valid(pubkey_of(sk@), msg@, r@),
{
    let key = ed25519_dalek::SigningKey::from_bytes(sk.try_into().unwrap());
    ed25519_dalek::Signer::sign(&key, msg).to_bytes().to_vec()
}

/// Relies on `ed25519_dalek::VerifyingKey::verify` after
/// `VerifyingKey::from_bytes`: deterministic in key, message and signature
/// bytes; false when the key bytes are no valid curve point.
#[verifier::external_body]
fn ed25519_check(vk: &[u8], msg: &[u8], sig: &[u8]) -> (r: bool)
    requires
        vk@.len() == 32,
        sig@.len() == 64,
    ensures
        r == sig_valid(vk@, msg@, sig@),
{
    match ed25519_dalek::VerifyingKey::from_bytes(vk.try_into().unwrap()) {
        Ok(key) => {
            let s = ed25519_dalek::Signature::from_bytes(sig.try_into().unwrap());
            ed25519_dalek::Verifier::verify(&key, msg, &s).is_ok()
        },
        Err(_) => false,
    }
}

/// Relies on `rand::rngs::OsRng::fill_bytes`: 32 bytes from the operating
/// system's cryptographically secure source.
#[verifier::external_body]
fn os_random_bytes32() -> (r: Vec<u8>)
    ensures
        r@.len() == 32,
{
    let mut buf = [0u8; 32];
    rand::RngCore::fill_bytes(&mut rand::rngs::OsRng, &mut buf);
    buf.to_vec()
}

/// Relies on `hex::encode`: two lowercase hex digits per input byte.
#[verifier::external_body]
pub(crate) fn hex_encode_str(data: &[u8]) -> (r: String)
    ensures
        encode_utf8(r@) == spec_hex_encode(data@),
{
    hex::encode(data)
}

/// Relies on `sha2::Sha256`: the 32-byte digest is a function of the input
/// bytes alone.
#[verifier::external_body]
fn sha256_digest(data: &[u8]) -> (r: Vec<u8>)
    ensures
        r@ == sha256_of(data@),
        r@.len() == 32,
{
    let mut hasher = <sha2::Sha256 as sha2::Digest>::new();
    sha2::Digest::update(&mut hasher, data);
    sha2::Digest::finalize(hasher).to_vec()
}

/// Relies on `str::to_lowercase`: the result depends on the characters
/// alone.
#[verifier::external_body]
fn lowercase(s: &str) -> (r: String)
    ensures
        r@ == lower_of(s@),
{
    s.to_lowercase()
}

/// Hash a password into a salted PHC string. Success is owed whenever the
/// password fits the algorithm's length bound; the result parses as a PHC
/// hash and verifies against the same password.
pub fn hash_password(password: &str) -> (r: Result<String, ApiError>)
    ensures
        encode_utf8(password@).len() <= 0xFFFF_FFFF ==> r is Ok,
        r matches Ok(h) ==> password_matches(password@, h@) && phc_wellformed(h@),
        r matches Err(e) ==> e == ApiError::Internal,
{
    match argon2_hash(password) {
        Ok(h) => Ok(h),
        Err(()) => Err(ApiError::Internal),
    }
}

/// Check a password against a stored PHC hash string; `Err` exactly when
/// the stored string is no parseable PHC hash.
pub fn verify_password(password: &str, hash: &str) -> (r: Result<bool, ApiError>)
    ensures
        r is Ok <==> phc_wellformed(hash@),
        r matches Ok(b) ==> b == password_matches(password@, hash@),
        r matches Err(e) ==> e == ApiError::Internal,
{
    match argon2_check(password, hash) {
        Ok(b) => Ok(b),
        Err(()) => Err(ApiError::Internal),
    }
}

/// Generate a fresh Ed25519 keypair; the verifying key is the one derived
/// from the signing key.
pub fn generate_keypair() -> (r: (SigningKey, VerifyingKey))
    ensures
        r.0.wf(),
        r.1.wf(),
        r.1@ == pubkey_of(r.0@),
{
    let (sk, vk) = ed25519_generate();
    (SigningKey { bytes: sk }, VerifyingKey { bytes: vk })
}

/// Sign a message; the signature is the deterministic Ed25519 signature
/// and verifies under the key derived from `signing_key`.
pub fn sign_message(signing_key: &SigningKey, message: &[u8]) -> (r: Signature)
    requires
        signing_key.wf(),
    ensures
        r.wf(),
        r@ == sig_of(signing_key@, message@),
        sig_valid(pubkey_of(signing_key@), message@, r@),
{
    let bytes = ed25519_sign(signing_key.bytes.as_slice(), message);
    Signature { bytes }
}

/// Verify a signature over a message under a verifying key.
pub fn verify_signature(verifying_key: &VerifyingKey, message: &[u8], signature: &Signature) -> (r:
    bool)
    requires
        verifying_key.wf(),
        signature.wf(),
    ensures
        r == sig_valid(verifying_key@, message@, signature@),
{
    ed25519_check(verifying_key.bytes.as_slice(), message, signature.bytes.as_slice())
}

/// Generate a single-use nonce: 32 random bytes, hex encoded into 64
/// lowercase digits.
pub fn generate_nonce() -> (r: String)
    ensures
        encode_utf8(r@).len() == 64,
        spec_hex_decode(encode_utf8(r@)) matches Some(b) && b.len() == 32,
        forall|i: int|
            0 <= i < encode_utf8(r@).len() ==> spec_is_lower_hex_digit(
                #[trigger] encode_utf8(r@)[i],
            ),
{
    let bytes = os_random_bytes32();
    let s = hex_encode_str(bytes.as_slice());
    proof {
        lemma_hex_encode_props(bytes@);
        lemma_hex_decode_encode(bytes@);
    }
    s
}

/// Deterministic one-way email digest: SHA-256 of the lowercased address,
/// hex encoded, so equal addresses modulo case hash identically.
pub fn hash_email(email: &str) -> (r: String)
    ensures
        encode_utf8(r@) == spec_hex_encode(sha256_of(encode_utf8(lower_of(email@)))),
        encode_utf8(r@).len() == 64,
{
    let lower = lowercase(email);
    let digest = sha256_digest(lower.as_str().as_bytes());
    let out = hex_encode_str(digest.as_slice());
    proof {
        lemma_hex_encode_props(digest@);
    }
    out
}

} // verus!
