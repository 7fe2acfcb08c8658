//! The wire contract, pinned on the Rust side.

use sign_keypair::{EcPublicJwk, Error, KeyBacking, KeyProtection, SecureKey, SignerCapabilities, SignerErrorCode};

#[test]
fn backing_wire_names_are_stable() {
    assert_eq!(KeyBacking::StrongBox.as_wire(), "strongbox");
    assert_eq!(KeyBacking::SecureEnclave.as_wire(), "secure_enclave");
    assert_eq!(KeyBacking::TrustedExecutionEnvironment.as_wire(), "tee");
    assert_eq!(KeyBacking::Keychain.as_wire(), "keychain");
    assert_eq!(KeyBacking::Software.as_wire(), "software");
}

#[test]
fn every_backing_round_trips() {
    for backing in [
        KeyBacking::StrongBox,
        KeyBacking::SecureEnclave,
        KeyBacking::TrustedExecutionEnvironment,
        KeyBacking::Keychain,
        KeyBacking::Software,
    ] {
        assert_eq!(KeyBacking::from_wire(backing.as_wire()), backing);
    }
}

/// Fail-safe: an unknown backing must never be counted as hardware.
#[test]
fn an_unknown_backing_degrades_to_software() {
    for unknown in ["", "titan", "STRONGBOX", "secure-enclave", "hardware"] {
        assert_eq!(
            KeyBacking::from_wire(unknown),
            KeyBacking::Software,
            "unknown tag {unknown:?} must degrade, never be guessed upward"
        );
        assert!(!KeyBacking::from_wire(unknown).is_hardware_backed());
    }
}

#[test]
fn hardware_backing_classification() {
    assert!(KeyBacking::StrongBox.is_hardware_backed());
    assert!(KeyBacking::SecureEnclave.is_hardware_backed());
    assert!(KeyBacking::TrustedExecutionEnvironment.is_hardware_backed());
    assert!(!KeyBacking::Keychain.is_hardware_backed());
    assert!(!KeyBacking::Software.is_hardware_backed());
}

#[test]
fn protection_wire_names_are_stable() {
    assert_eq!(KeyProtection::Ambient.as_wire(), "ambient");
    assert_eq!(KeyProtection::UserPresent.as_wire(), "user_present");
}

#[test]
fn every_protection_round_trips() {
    for protection in [KeyProtection::Ambient, KeyProtection::UserPresent] {
        assert_eq!(
            KeyProtection::from_wire(protection.as_wire()),
            Some(protection)
        );
    }
}

/// No default, unlike the backing tag.
#[test]
fn an_unknown_protection_has_no_default() {
    for unknown in ["", "elevated", "AMBIENT", "userPresent", "user-present"] {
        assert_eq!(
            KeyProtection::from_wire(unknown),
            None,
            "unknown tag {unknown:?} must fail, not be answered for"
        );
    }
}

#[test]
fn protection_presence_classification() {
    assert!(!KeyProtection::Ambient.requires_user_presence());
    assert!(KeyProtection::UserPresent.requires_user_presence());
}

#[test]
fn error_code_wire_names_are_stable() {
    let expected = [
        (SignerErrorCode::KeyNotFound, "key_not_found"),
        (SignerErrorCode::KeyAlreadyExists, "key_already_exists"),
        (SignerErrorCode::HardwareUnavailable, "hardware_unavailable"),
        (SignerErrorCode::KeystoreFailure, "keystore_failure"),
        (
            SignerErrorCode::UserAuthenticationRequired,
            "user_authentication_required",
        ),
        (
            SignerErrorCode::UserAuthenticationCancelled,
            "user_authentication_cancelled",
        ),
        (SignerErrorCode::KeyInvalidated, "key_invalidated"),
        (SignerErrorCode::UnsupportedPlatform, "unsupported_platform"),
        (SignerErrorCode::Unknown, "unknown"),
    ];
    for (code, wire) in expected {
        assert_eq!(code.as_wire(), wire);
        assert_eq!(SignerErrorCode::from_wire(wire), code);
    }
}

/// An unrecognised code becomes `Unknown` but keeps its raw string.
#[test]
fn an_unknown_error_code_keeps_its_raw_string() {
    let error = Error::from_wire(Some("quantum_lockout"), "something new happened");
    assert_eq!(error.code, SignerErrorCode::Unknown);
    assert_eq!(error.raw_code, "quantum_lockout");
    assert_eq!(error.message, "something new happened");
}

#[test]
fn a_missing_error_code_becomes_unknown() {
    let error = Error::from_wire(None, "the transport failed");
    assert_eq!(error.code, SignerErrorCode::Unknown);
    assert_eq!(error.raw_code, "unknown");
}

#[test]
fn a_known_error_code_keeps_its_own_tag() {
    let error = Error::new(SignerErrorCode::KeyInvalidated, "biometrics changed");
    assert_eq!(error.code, SignerErrorCode::KeyInvalidated);
    assert_eq!(error.raw_code, "key_invalidated");
    assert_eq!(error.message, "biometrics changed");

    let read_back = Error::from_wire(Some(&error.raw_code), &error.message);
    assert_eq!(read_back.code, error.code);
    assert_eq!(read_back.raw_code, error.raw_code);
    assert_eq!(read_back.message, error.message);
}

#[test]
fn the_default_protection_is_ambient() {
    assert_eq!(KeyProtection::default(), KeyProtection::Ambient);
}

#[test]
fn handles_mirror_their_backing_classification() {
    let jwk = EcPublicJwk::new("xx".to_string(), "yy".to_string());
    assert_eq!(jwk.crv, "P-256");
    assert_eq!(jwk.kty, "EC");
    let key = SecureKey::new("device", jwk.clone(), KeyBacking::StrongBox);
    assert!(key.hardware_backed);
    assert_eq!(key.key_id, "device");
    let key = SecureKey::new("device", jwk, KeyBacking::Keychain);
    assert!(!key.hardware_backed);
    let caps = SignerCapabilities::new("ios", KeyBacking::SecureEnclave);
    assert_eq!(caps.platform, "ios");
    assert!(caps.hardware_backed);
}
