//! The P-256 and SHA-256 primitives the backends sign with, from `p256` and
//! `sha2`.
//!
//! Every item here takes and returns plain bytes, so the key material that
//! crosses it is visible to the contracts around it: a scalar, an uncompressed
//! SEC1 point, a fixed-width P1363 signature, a digest.

use vstd::prelude::*;

use p256::ecdsa::signature::Signer as _;
use sha2::Digest as _;

verus! {

/// The unsigned big-endian value of `bytes`.
pub open spec fn be_value(bytes: Seq<u8>) -> nat
    decreases bytes.len(),
{
    if bytes.len() == 0 {
        0
    } else {
        be_value(bytes.drop_last()) * 256 + bytes.last() as nat
    }
}

/// The order `n` of the P-256 base point.
pub open spec fn p256_order() -> nat {
    0xFFFFFFFF00000000FFFFFFFFFFFFFFFFBCE6FAADA7179E84F3B9CAC2FC632551nat
}

/// The byte strings `SigningKey::from_slice` accepts as a P-256 secret scalar:
/// 24 to 32 bytes (shorter ones are left-padded) whose big-endian value is
/// neither zero nor at least the group order.
pub open spec fn p256_scalar_accepted(scalar: Seq<u8>) -> bool {
    &&& 24 <= scalar.len() <= 32
    &&& 0 < be_value(scalar) < p256_order()
}

/// The uncompressed SEC1 encoding (`0x04 ‖ X ‖ Y`) of the public point of the
/// secret scalar `scalar`, as `p256` computes it.
pub uninterp spec fn p256_public_point(scalar: Seq<u8>) -> Seq<u8>;

/// The fixed-width `r ‖ s` ECDSA/SHA-256 signature of `message` under the
/// accepted scalar `scalar`, with the RFC 6979 deterministic nonce, as `p256`'s
/// `try_sign` computes it; `None` where `try_sign` reports an error.
pub uninterp spec fn p256_signature(scalar: Seq<u8>, message: Seq<u8>) -> Option<Seq<u8>>;

/// The SHA-256 digest of `data`, as `sha2` computes it.
pub uninterp spec fn sha256_digest(data: Seq<u8>) -> Seq<u8>;

/// 32 bytes from the operating system's random number generator.
///
/// Calls `rand_core::RngCore::try_fill_bytes` on `rand_core::OsRng` (which
/// calls `getrandom`), so a generator that cannot answer is an error (carried
/// as its `Display` text) rather than a panic. Which bytes come out is chance;
/// nothing is stated of them but their number.
#[verifier::external_body]
pub fn random_bytes() -> (bytes: Result<Vec<u8>, String>)
    ensures
        bytes is Ok ==> bytes->Ok_0@.len() == 32,
{
    let mut bytes = vec![0u8; 32];
    match rand_core::RngCore::try_fill_bytes(&mut rand_core::OsRng, &mut bytes) {
        Ok(()) => Ok(bytes),
        Err(e) => Err(format!("{e}")),
    }
}

/// The public point of a secret scalar.
///
/// Calls `SigningKey::from_slice`, then `verifying_key().to_encoded_point(false)`.
/// Trusted: `from_slice` fails exactly on the scalars `p256_scalar_accepted`
/// excludes (its error is carried as its `Display` text), and an uncompressed encoding of a (never-identity) verifying key
/// is 65 bytes starting with `0x04`.
#[verifier::external_body]
pub fn public_point(scalar: &[u8]) -> (point: Result<Vec<u8>, String>)
    ensures
        point is Ok <==> p256_scalar_accepted(scalar@),
        point is Ok ==> point->Ok_0@ == p256_public_point(scalar@),
        point is Ok ==> point->Ok_0@.len() == 65 && point->Ok_0@[0] == 0x04,
{
    match p256::ecdsa::SigningKey::from_slice(scalar) {
        Ok(key) => Ok(key.verifying_key().to_encoded_point(false).as_bytes().to_vec()),
        Err(e) => Err(format!("{e}")),
    }
}

/// Why `sign_message` gave no signature, with the error's `Display` text.
pub enum SigningFailure {
    /// `SigningKey::from_slice` refused the bytes as a P-256 scalar.
    Scalar(String),
    /// `Signer::try_sign` reported an error for an accepted scalar.
    Signing(String),
}

/// Sign `message` with a secret scalar.
///
/// Calls `SigningKey::from_slice`, then `Signer::try_sign` (SHA-256 of the
/// message, RFC 6979 nonce), then `Signature::to_bytes`. Trusted: a scalar
/// `from_slice` refuses is a `Scalar` failure, and only such a scalar is; for
/// an accepted one the result is `try_sign`'s, named `p256_signature`, whose
/// `to_bytes` is the 64-byte `r ‖ s`, and its error a `Signing` failure.
#[verifier::external_body]
pub fn sign_message(scalar: &[u8], message: &[u8]) -> (signature: Result<Vec<u8>, SigningFailure>)
    ensures
        signature matches Err(SigningFailure::Scalar(_)) <==> !p256_scalar_accepted(scalar@),
        p256_scalar_accepted(scalar@) ==> (signature is Ok <==> p256_signature(
            scalar@,
            message@,
        ) is Some),
        signature is Ok ==> signature->Ok_0@ == p256_signature(scalar@, message@).unwrap(),
        signature is Ok ==> signature->Ok_0@.len() == 64,
{
    let key = match p256::ecdsa::SigningKey::from_slice(scalar) {
        Ok(key) => key,
        Err(e) => return Err(SigningFailure::Scalar(format!("{e}"))),
    };
    match key.try_sign(message) {
        Ok(sig) => {
            let sig: p256::ecdsa::Signature = sig;
            Ok(sig.to_bytes().to_vec())
        },
        Err(e) => Err(SigningFailure::Signing(format!("{e}"))),
    }
}

/// The SHA-256 digest of `data`.
///
/// Calls `sha2::Sha256::digest`. Trusted: the digest is 32 bytes.
#[verifier::external_body]
pub fn sha256(data: &[u8]) -> (digest: Vec<u8>)
    ensures
        digest@ == sha256_digest(data@),
        digest@.len() == 32,
{
    sha2::Sha256::digest(data).to_vec()
}

} // verus!
