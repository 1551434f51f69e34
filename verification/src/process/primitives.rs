//! The cryptographic primitives, taken from the `blake3` and `ed25519-dalek`
//! crates. Nothing in this file is proved: each contract is a statement about
//! the crate that the function calls.

use vstd::prelude::*;
use ed25519_dalek::{Signature, SignatureError, Signer, SigningKey, Verifier, VerifyingKey};
use rand::rngs::OsRng;

verus! {

/// The BLAKE3 keyed hash of `input` under the 32-byte `key`, as
/// `blake3::keyed_hash` computes it.
pub uninterp spec fn keyed_hash(key: Seq<u8>, input: Seq<u8>) -> Seq<u8>;

/// The encoded Ed25519 public key that belongs to the 32-byte private `seed`:
/// the bytes of `SigningKey::from_bytes(seed).verifying_key()`.
pub uninterp spec fn ed25519_public_key(seed: Seq<u8>) -> Seq<u8>;

/// The Ed25519 signature of `message` under the 32-byte private `seed`, as
/// `SigningKey::sign` computes it. Signing draws no randomness.
pub uninterp spec fn ed25519_signature(seed: Seq<u8>, message: Seq<u8>) -> Seq<u8>;

/// Whether 32 bytes decode as a point of the curve, that is whether
/// `VerifyingKey::from_bytes` accepts them.
pub uninterp spec fn ed25519_point(public: Seq<u8>) -> bool;

/// Whether `VerifyingKey::verify` accepts the 64-byte `signature` for
/// `message` under the key that the 32 bytes of `public` decode to. False
/// where `public` does not decode.
pub uninterp spec fn ed25519_accepts(public: Seq<u8>, message: Seq<u8>, signature: Seq<u8>) -> bool;

/// The error of `ed25519-dalek`. It carries no detail that this library reads.
#[verifier::external_type_specification]
#[verifier::external_body]
pub struct ExSignatureError(SignatureError);

/// Calls `blake3::keyed_hash`. The digest is a function of key and input
/// alone.
#[verifier::external_body]
pub(crate) fn blake3_keyed_hash(key: &[u8; 32], input: &[u8]) -> (digest: [u8; 32])
    ensures
        digest@ == keyed_hash(key@, input@),
{
    *blake3::keyed_hash(key, input).as_bytes()
}

/// Calls `SigningKey::from_bytes` and `SigningKey::verifying_key`. The public
/// key is a function of the seed alone, and it is the encoding of a point, so
/// `VerifyingKey::from_bytes` accepts it.
#[verifier::external_body]
pub(crate) fn ed25519_derive_public(seed: &[u8; 32]) -> (public: [u8; 32])
    ensures
        public@ == ed25519_public_key(seed@),
        ed25519_point(public@),
{
    SigningKey::from_bytes(seed).verifying_key().to_bytes()
}

/// Calls `SigningKey::sign`. The signature is a function of seed and message
/// alone, and the public key that belongs to the seed accepts it for that
/// message.
#[verifier::external_body]
pub(crate) fn ed25519_sign(seed: &[u8; 32], message: &[u8]) -> (signature: [u8; 64])
    ensures
        signature@ == ed25519_signature(seed@, message@),
        ed25519_accepts(ed25519_public_key(seed@), message@, signature@),
{
    SigningKey::from_bytes(seed).sign(message).to_bytes()
}

/// Calls `VerifyingKey::from_bytes`, which fails exactly on bytes that are not
/// the encoding of a point.
#[verifier::external_body]
pub(crate) fn ed25519_decode_public(public: &[u8; 32]) -> (r: Result<(), SignatureError>)
    ensures
        r.is_ok() == ed25519_point(public@),
{
    match VerifyingKey::from_bytes(public) {
        Ok(_) => Ok(()),
        Err(e) => Err(e),
    }
}

/// Calls `VerifyingKey::verify` with the key that `public` decodes to. The
/// answer is a function of the three byte strings alone; a key that does not
/// decode gives an error.
#[verifier::external_body]
pub(crate) fn ed25519_verify(public: &[u8; 32], message: &[u8], signature: &[u8; 64]) -> (r:
    Result<(), SignatureError>)
    ensures
        r.is_ok() == ed25519_accepts(public@, message@, signature@),
{
    let key = VerifyingKey::from_bytes(public)?;
    key.verify(message, &Signature::from_bytes(signature))
}

/// Calls `SigningKey::generate` on the operating system's random source and
/// hands back the seed. Nothing is known of the seed but its length. The call
/// stops the process where the operating system gives no randomness.
#[verifier::external_body]
pub(crate) fn ed25519_fresh_seed() -> (seed: [u8; 32])
{
    SigningKey::generate(&mut OsRng).to_bytes()
}

} // verus!
