//! Ed25519 signing and strict verification, done by `ed25519_dalek`.
use vstd::prelude::*;

verus! {

/// Length in bytes of an encoded verifying key.
pub const PUBLIC_KEY_LENGTH: usize = 32;

/// Length in bytes of an encoded signature.
pub const SIGNATURE_LENGTH: usize = 64;

/// The encoding of the verifying key that belongs to a 32-byte secret key.
pub uninterp spec fn verifying_key_of(secret: Seq<u8>) -> Seq<u8>;

/// The encoding of the signature of a message under a 32-byte secret key.
pub uninterp spec fn signature_of(secret: Seq<u8>, message: Seq<u8>) -> Seq<u8>;

/// Whether 32 bytes decode to a verifying key.
pub uninterp spec fn key_decodes(key: Seq<u8>) -> bool;

/// Whether a signature passes strict verification under an encoded verifying
/// key, for a message.
pub uninterp spec fn strictly_verifies(key: Seq<u8>, message: Seq<u8>, signature: Seq<u8>) -> bool;

/// Whether the first half of a signature encodes the neutral element of the
/// curve group: the byte 1, then 31 zeros.
pub open spec fn has_neutral_nonce(signature: Seq<u8>) -> bool {
    signature.take(32) == seq![1u8] + Seq::new(31, |i: int| 0u8)
}

/// Draws a fresh secret key.
///
/// Calls `ed25519_dalek::SigningKey::generate` with the thread's generator,
/// `rand::rng()`. Nothing is claimed of which key comes out. The generator is
/// seeded by the system; where the system has no randomness to give, the call
/// does not return.
#[verifier::external_body]
pub(crate) fn generate_secret_key() -> (secret: [u8; 32]) {
    ed25519_dalek::SigningKey::generate(&mut rand::rng()).to_bytes()
}

/// The verifying key of `secret`, encoded.
///
/// Calls `ed25519_dalek::SigningKey::verifying_key`. The key depends on the
/// secret alone, and its encoding decodes again.
#[verifier::external_body]
pub(crate) fn verifying_key(secret: &[u8; 32]) -> (key: [u8; 32])
    ensures
        key@ == verifying_key_of(secret@),
        key_decodes(key@),
{
    ed25519_dalek::SigningKey::from_bytes(secret).verifying_key().to_bytes()
}

/// Signs `message`.
///
/// Calls `ed25519_dalek::Signer::sign` on the signing key of `secret`. The
/// signature depends on the secret and the message alone: signing is
/// deterministic. It passes strict verification under the verifying key of the
/// same secret, unless its first half encodes the neutral element: strict
/// verification turns points of small order away, and that is the one such
/// point that signing can produce. The verifying key itself is never of small
/// order, since a clamped secret scalar is no multiple of the group order.
#[verifier::external_body]
pub(crate) fn sign(secret: &[u8; 32], message: &[u8]) -> (signature: [u8; 64])
    ensures
        signature@ == signature_of(secret@, message@),
        !has_neutral_nonce(signature@) ==> strictly_verifies(
            verifying_key_of(secret@),
            message@,
            signature@,
        ),
{
    ed25519_dalek::Signer::sign(&ed25519_dalek::SigningKey::from_bytes(secret), message).to_bytes()
}

/// Whether `key` decodes to a verifying key.
///
/// Calls `ed25519_dalek::VerifyingKey::from_bytes`, which decides on the bytes
/// alone.
#[verifier::external_body]
pub(crate) fn decodes_as_key(key: &[u8; 32]) -> (ok: bool)
    ensures
        ok == key_decodes(key@),
{
    ed25519_dalek::VerifyingKey::from_bytes(key).is_ok()
}

/// Whether `signature` passes strict verification.
///
/// Calls `ed25519_dalek::VerifyingKey::verify_strict`, which decides on the
/// key, the message and the signature alone. The key has to decode.
#[verifier::external_body]
pub(crate) fn verify_strict(key: &[u8; 32], message: &[u8], signature: &[u8; 64]) -> (ok: bool)
    requires
        key_decodes(key@),
    ensures
        ok == strictly_verifies(key@, message@, signature@),
{
    let signature = ed25519_dalek::Signature::from_bytes(signature);
    ed25519_dalek::VerifyingKey::from_bytes(key).unwrap().verify_strict(message, &signature).is_ok()
}

} // verus!
