//! The desktop software fallback, driven through its decisions with the store
//! held in memory: what the file would hold is the record handed back.
//!
//! The signature is verified with `p256`'s **verifier** against the reported
//! JWK, not against anything this crate produced, so a coordinate-encoding bug
//! fails here rather than at a customer's device registration.

use std::path::PathBuf;

use p256::ecdsa::signature::Verifier;
use p256::ecdsa::{Signature, VerifyingKey};
use p256::EncodedPoint;
use base64::engine::general_purpose::URL_SAFE_NO_PAD;
use base64::Engine as _;

use sign_keypair::desktop::software::{KeyRecord, Removal, SoftwareBackend, StoredRead};
use sign_keypair::desktop::{select_backend, DesktopBackend};
use sign_keypair::{KeyBacking, KeyProtection, SignerErrorCode};

fn backend() -> SoftwareBackend {
    SoftwareBackend::new(PathBuf::from("sign-keypair-test-store"))
}

fn b64u_decode(value: &str) -> Vec<u8> {
    URL_SAFE_NO_PAD
        .decode(value)
        .expect("a JWK coordinate must be base64url")
}

fn generate(signer: &SoftwareBackend, key_id: &str, stored: Option<KeyRecord>, overwrite: bool)
    -> Result<(KeyRecord, sign_keypair::SecureKey), sign_keypair::Error>
{
    signer.generate_key(key_id, false, overwrite, KeyProtection::Ambient, Ok(stored))
}

#[test]
fn capabilities_report_software_and_say_so() {
    let capabilities = backend().capabilities();
    assert_eq!(capabilities.best_available_backing, KeyBacking::Software);
    assert_eq!(capabilities.platform, "rust-software");
    assert!(!capabilities.hardware_backed);

    let chosen = select_backend(None, PathBuf::from("store"));
    assert!(matches!(chosen, DesktopBackend::Software(_)));
    assert_eq!(chosen.capabilities().best_available_backing, KeyBacking::Software);
}

#[test]
fn a_generated_signature_verifies_against_the_reported_jwk() {
    let signer = backend();
    let key_id = "test_verify";
    let (record, key) = generate(&signer, key_id, None, false)
        .expect("generate must succeed on the software backend");
    assert_eq!(key.backing, KeyBacking::Software);
    assert!(!key.hardware_backed);
    assert_eq!(key.public_key.crv, "P-256");
    assert_eq!(key.public_key.kty, "EC");
    assert_eq!(key.key_id, key_id);

    let payload = b"eyJhbGciOiJFUzI1NiIsInR5cCI6IkpXVCJ9.payload";
    let signature_bytes = signer
        .sign(key_id, Some(record), payload, None)
        .expect("sign must succeed");
    assert_eq!(signature_bytes.len(), 64, "ES256 needs a 64-byte P1363 signature");

    let x = b64u_decode(&key.public_key.x);
    let y = b64u_decode(&key.public_key.y);
    assert_eq!(x.len(), 32, "a P-256 coordinate is exactly 32 bytes");
    assert_eq!(y.len(), 32, "a P-256 coordinate is exactly 32 bytes");

    let point = EncodedPoint::from_affine_coordinates(
        x.as_slice().into(),
        y.as_slice().into(),
        /* compress = */ false,
    );
    let verifying_key =
        VerifyingKey::from_encoded_point(&point).expect("the reported JWK must be a valid point");
    let signature =
        Signature::from_slice(&signature_bytes).expect("the signature must parse as P1363");
    verifying_key
        .verify(payload, &signature)
        .expect("the signature must verify against the JWK the plugin reported");
}

/// `require_hardware` must fail loudly rather than quietly hand back a software key.
#[test]
fn require_hardware_is_refused_not_degraded() {
    let signer = backend();
    let error = signer
        .generate_key("test_require_hardware", true, false, KeyProtection::Ambient, Ok(None))
        .expect_err("require_hardware must be refused on a software backend");
    assert_eq!(error.code, SignerErrorCode::HardwareUnavailable);
    // A refusal hands back no record to store, so the key still reads as absent.
    assert!(SoftwareBackend::get_key("test_require_hardware", None).is_none());
}

/// No secure element, no prompt: refuse instead of issuing a key that answers
/// to the name.
#[test]
fn user_presence_is_refused_not_faked() {
    let signer = backend();
    let error = signer
        .generate_key("test_user_present", false, false, KeyProtection::UserPresent, Ok(None))
        .expect_err("a software backend must not pretend to enforce user presence");
    assert_eq!(error.code, SignerErrorCode::HardwareUnavailable);
    assert!(SoftwareBackend::get_key("test_user_present", None).is_none());
}

#[test]
fn generate_without_overwrite_refuses_to_clobber_an_existing_key() {
    let signer = backend();
    let key_id = "test_clobber";
    let (record, original) = generate(&signer, key_id, None, false).unwrap();

    let error = generate(&signer, key_id, Some(record.clone()), false)
        .expect_err("a second generate without overwrite must be refused");
    assert_eq!(error.code, SignerErrorCode::KeyAlreadyExists);

    let surviving = SoftwareBackend::get_key(key_id, Some(record.clone())).expect("the key must survive");
    assert_eq!(surviving.public_key, original.public_key);

    let (_, replacement) = generate(&signer, key_id, Some(record), true).unwrap();
    assert_ne!(replacement.public_key, original.public_key);
}

#[test]
fn a_deleted_key_cannot_sign_and_deleting_twice_is_a_no_op() {
    let signer = backend();
    let key_id = "test_deleted";
    generate(&signer, key_id, None, false).unwrap();
    SoftwareBackend::interpret_removal(key_id, Removal::Removed).unwrap();

    assert!(SoftwareBackend::get_key(key_id, None).is_none());
    let error = signer
        .sign(key_id, None, b"payload", None)
        .expect_err("a deleted key must not sign");
    assert_eq!(error.code, SignerErrorCode::KeyNotFound);

    SoftwareBackend::interpret_removal(key_id, Removal::Missing)
        .expect("deleting a missing key is a documented no-op");
}

#[test]
fn keys_survive_a_plugin_restart() {
    let key_id = "test_persistence";
    let (record, generated) = generate(&backend(), key_id, None, false).unwrap();
    let read = SoftwareBackend::interpret_read(key_id, StoredRead::Found(record)).unwrap();
    let reloaded = SoftwareBackend::get_key(key_id, read).expect("the key must still be there");
    assert_eq!(reloaded.public_key, generated.public_key);
}

#[test]
fn read_and_removal_failures_are_keystore_failures() {
    let e = SoftwareBackend::interpret_read("k", StoredRead::Unreadable("bad json".into())).unwrap_err();
    assert_eq!(e.code, SignerErrorCode::KeystoreFailure);
    assert_eq!(e.message, "The stored record for \"k\" is unreadable: bad json");
    let e = SoftwareBackend::interpret_read("k", StoredRead::Failed("denied".into())).unwrap_err();
    assert_eq!(e.message, "Could not read the key under \"k\": denied");
    assert!(SoftwareBackend::interpret_read("k", StoredRead::Missing).unwrap().is_none());
    let e = SoftwareBackend::interpret_removal("k", Removal::Failed("busy".into())).unwrap_err();
    assert_eq!(e.message, "Could not delete the key under \"k\": busy");
}

#[test]
fn a_failed_read_is_reported_by_generate() {
    let signer = backend();
    let failure = SoftwareBackend::interpret_read("k", StoredRead::Failed("denied".into())).unwrap_err();
    let error = signer
        .generate_key("k", false, false, KeyProtection::Ambient, Err(failure))
        .unwrap_err();
    assert_eq!(error.message, "Could not read the key under \"k\": denied");
    // The refusals still come first.
    let failure = SoftwareBackend::interpret_read("k", StoredRead::Failed("denied".into())).unwrap_err();
    let error = signer
        .generate_key("k", true, false, KeyProtection::Ambient, Err(failure))
        .unwrap_err();
    assert_eq!(error.code, SignerErrorCode::HardwareUnavailable);
}

#[test]
fn overwrite_recovers_from_an_unreadable_key_file() {
    let signer = backend();
    let failure = SoftwareBackend::interpret_read("k", StoredRead::Unreadable("bad json".into()))
        .unwrap_err();
    let (record, key) = signer
        .generate_key("k", false, true, KeyProtection::Ambient, Err(failure))
        .expect("overwrite replaces the key whatever the file holds");
    assert_eq!(key.backing, KeyBacking::Software);
    assert!(signer.sign("k", Some(record), b"x", None).is_ok());
}

#[test]
fn a_corrupt_scalar_cannot_sign() {
    let signer = backend();
    let (record, _) = generate(&signer, "k", None, false).unwrap();
    let zero = KeyRecord { d: "A".repeat(43), ..record.clone() };
    let error = signer.sign("k", Some(zero), b"x", None).unwrap_err();
    assert_eq!(error.code, SignerErrorCode::KeystoreFailure);
    assert!(error
        .message
        .starts_with("The stored key under \"k\" is not a valid P-256 scalar: "));
    let garbage = KeyRecord { d: "!!".to_string(), ..record };
    let error = signer.sign("k", Some(garbage), b"x", None).unwrap_err();
    assert_eq!(error.code, SignerErrorCode::KeystoreFailure);
    assert!(error.message.starts_with("Argument is not valid base64url: "));
}

#[test]
fn signing_is_deterministic_for_one_key() {
    let signer = backend();
    let (record, _) = generate(&signer, "k", None, false).unwrap();
    let a = signer.sign("k", Some(record.clone()), b"same payload", None).unwrap();
    let b = signer.sign("k", Some(record), b"same payload", None).unwrap();
    assert_eq!(a, b);
}

#[test]
fn record_files_are_named_by_the_encoded_key_id() {
    assert_eq!(SoftwareBackend::record_file_name("device"), "ZGV2aWNl.json");
    assert_eq!(SoftwareBackend::record_file_name("../x"), "Li4veA.json");
}
