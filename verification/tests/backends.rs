//! The platform backends' own decisions: argument defaults, the mobile error
//! mapping, and what the macOS, Windows and Linux backends check and encode.

use std::path::PathBuf;

use sign_keypair::commands::{generate_key_options, parse_protection};
use sign_keypair::desktop::linux::{self, TpmBackend};
use sign_keypair::desktop::macos::{self, Accessibility, SecureEnclaveBackend};
use sign_keypair::desktop::windows::{self, CngBackend};
use sign_keypair::desktop::{select_backend, split_uncompressed_point, DesktopBackend};
use sign_keypair::mobile;
use sign_keypair::{KeyBacking, KeyProtection, SignerErrorCode};

#[test]
fn an_absent_protection_is_ambient_and_an_unknown_one_is_refused() {
    assert_eq!(parse_protection(None).unwrap(), KeyProtection::Ambient);
    assert_eq!(parse_protection(Some("user_present")).unwrap(), KeyProtection::UserPresent);
    let error = parse_protection(Some("elevated")).unwrap_err();
    assert_eq!(error.code, SignerErrorCode::KeystoreFailure);
    assert_eq!(error.message, "Unknown key protection \"elevated\"");
}

#[test]
fn generate_options_default_to_false() {
    let options = generate_key_options(None, None, None).unwrap();
    assert!(!options.require_hardware);
    assert!(!options.overwrite);
    assert_eq!(options.protection, KeyProtection::Ambient);
    let options = generate_key_options(Some(true), Some(false), Some("ambient")).unwrap();
    assert!(options.require_hardware);
    assert!(generate_key_options(None, None, Some("AMBIENT")).is_err());
}

#[test]
fn a_native_rejection_keeps_its_code() {
    let error = mobile::rejection_error("sign", Some("user_authentication_cancelled"), Some("dismissed"));
    assert_eq!(error.code, SignerErrorCode::UserAuthenticationCancelled);
    assert_eq!(error.message, "dismissed");
    let error = mobile::rejection_error("sign", Some("quantum_lockout"), None);
    assert_eq!(error.code, SignerErrorCode::Unknown);
    assert_eq!(error.raw_code, "quantum_lockout");
    assert_eq!(error.message, "The native plugin rejected \"sign\"");
    let error = mobile::invoke_failure("getKey", "no handle");
    assert_eq!(error.code, SignerErrorCode::KeystoreFailure);
    assert_eq!(error.message, "The native plugin failed on \"getKey\": no handle");
    assert_eq!(
        mobile::registration_error("Android", "missing").message,
        "Could not register the Android plugin: missing"
    );
}

#[test]
fn the_mac_backend_reports_what_the_probe_found() {
    let with = SecureEnclaveBackend::new(true);
    let without = SecureEnclaveBackend::new(false);
    assert_eq!(with.backing(), KeyBacking::SecureEnclave);
    assert_eq!(without.backing(), KeyBacking::Keychain);
    assert!(with.capabilities().hardware_backed);
    assert!(!without.capabilities().hardware_backed);
    assert_eq!(without.capabilities().platform, "macos");
    let chosen = select_backend(Some(SecureEnclaveBackend::new(false)), PathBuf::from("x"));
    assert!(matches!(chosen, DesktopBackend::SecureEnclave(_)));
    assert_eq!(chosen.capabilities().best_available_backing, KeyBacking::Keychain);
}

#[test]
fn the_mac_checks_capability_before_anything_destructive() {
    let without = SecureEnclaveBackend::new(false);
    let error = without.check_hardware(true).unwrap_err();
    assert_eq!(error.code, SignerErrorCode::HardwareUnavailable);
    assert!(without.check_hardware(false).is_ok());
    assert!(SecureEnclaveBackend::new(true).check_hardware(true).is_ok());
    let error = without.plan_generate("device", false, true).unwrap_err();
    assert_eq!(error.code, SignerErrorCode::KeyAlreadyExists);
    assert_eq!(error.message, "A key already exists under \"device\"");
    assert!(without.plan_generate("device", true, true).unwrap());
    assert!(!SecureEnclaveBackend::new(true).plan_generate("device", false, false).unwrap());
}

#[test]
fn the_mac_access_policy_follows_the_two_key_model() {
    let ambient = macos::access_policy(KeyProtection::Ambient, true);
    assert_eq!(ambient.accessibility, Accessibility::AfterFirstUnlockThisDeviceOnly);
    assert!(ambient.private_key_usage);
    assert!(!ambient.biometry_or_passcode);
    let present = macos::access_policy(KeyProtection::UserPresent, false);
    assert_eq!(present.accessibility, Accessibility::WhenUnlockedThisDeviceOnly);
    assert!(!present.private_key_usage);
    assert!(present.biometry_or_passcode);
}

#[test]
fn mac_status_codes_map_onto_actionable_errors() {
    assert_eq!(macos::signing_error(-128).code, SignerErrorCode::UserAuthenticationCancelled);
    assert_eq!(macos::signing_error(-25308).code, SignerErrorCode::UserAuthenticationRequired);
    assert_eq!(macos::signing_error(-25293).code, SignerErrorCode::KeyInvalidated);
    let other = macos::signing_error(-34018);
    assert_eq!(other.code, SignerErrorCode::KeystoreFailure);
    assert_eq!(other.message, "SecKeyCreateSignature failed with status -34018");
    assert!(macos::delete_outcome(0).is_ok());
    assert!(macos::delete_outcome(-25300).is_ok());
    assert_eq!(macos::delete_outcome(-1).unwrap_err().message, "SecItemDelete failed with status -1");
    assert!(!macos::lookup_outcome(-25300, false).unwrap());
    assert!(macos::lookup_outcome(0, true).unwrap());
    assert!(macos::lookup_outcome(7, true).is_err());
    assert_eq!(macos::stored_key_backing(true), KeyBacking::SecureEnclave);
    assert_eq!(macos::stored_key_backing(false), KeyBacking::Keychain);
    assert_eq!(macos::tag_text("device"), "app.vaam.signkeypair.device");
}

#[test]
fn an_uncompressed_point_becomes_a_jwk() {
    let mut raw = vec![0x04u8];
    raw.extend_from_slice(&[0xfb; 32]);
    raw.extend_from_slice(&[0x00; 32]);
    let jwk = macos::public_jwk_from_x963(&raw).unwrap();
    assert_eq!(jwk.crv, "P-256");
    assert_eq!(jwk.x, "-".repeat(0) + &sign_keypair::b64::encode(&[0xfb; 32]));
    assert_eq!(jwk.y, "A".repeat(43));
    raw[0] = 0x02;
    let error = macos::public_jwk_from_x963(&raw).unwrap_err();
    assert_eq!(error.message, "Unexpected public key encoding (65 bytes)");
    assert!(split_uncompressed_point(&raw[..64]).is_none());
}

#[test]
fn windows_refuses_user_presence_and_reads_its_public_blob() {
    let cng = CngBackend;
    assert_eq!(cng.capabilities().best_available_backing, KeyBacking::TrustedExecutionEnvironment);
    assert!(cng.capabilities().hardware_backed);
    assert_eq!(
        cng.check_protection(KeyProtection::UserPresent).unwrap_err().code,
        SignerErrorCode::HardwareUnavailable
    );
    assert!(cng.check_protection(KeyProtection::Ambient).is_ok());
    assert_eq!(
        cng.plan_generate("device", false, true).unwrap_err().code,
        SignerErrorCode::KeyAlreadyExists
    );
    assert!(cng.plan_generate("device", true, true).unwrap());
    assert_eq!(windows::key_name("device"), "app.vaam.signkeypair.device");

    let mut blob = vec![0x45, 0x43, 0x53, 0x31, 32, 0, 0, 0];
    blob.extend_from_slice(&[0x11; 32]);
    blob.extend_from_slice(&[0x22; 32]);
    let jwk = windows::ecc_public_blob_jwk(&blob).unwrap();
    assert_eq!(jwk.x, sign_keypair::b64::encode(&[0x11; 32]));
    assert_eq!(jwk.y, sign_keypair::b64::encode(&[0x22; 32]));
    blob[0] = 0x46;
    assert_eq!(
        windows::ecc_public_blob_jwk(&blob).unwrap_err().message,
        "Expected a P-256 public blob, got magic 0x31534346 cbKey 32"
    );
    assert_eq!(
        windows::ecc_public_blob_jwk(&blob[..10]).unwrap_err().message,
        "Public key blob is 10 bytes, too short"
    );
}

#[test]
fn windows_signs_a_digest_and_checks_the_width() {
    let digest = sign_keypair::desktop::signing_digest(b"abc");
    assert_eq!(
        sign_keypair::b64::encode(&digest),
        "ungWv48Bz-pBQUDeXa4iI7ADYaOWF3qctBD_YfIAFa0"
    );
    assert_eq!(windows::checked_p1363(vec![1; 64]).unwrap(), vec![1; 64]);
    assert_eq!(
        windows::checked_p1363(vec![1; 71]).unwrap_err().message,
        "Expected a 64-byte P1363 signature, got 71"
    );
    assert_eq!(windows::provider_error("off").code, SignerErrorCode::HardwareUnavailable);
    assert_eq!(windows::missing_key("k").code, SignerErrorCode::KeyNotFound);
}

#[test]
fn the_tpm_pads_on_the_left_and_refuses_user_presence() {
    let tpm = TpmBackend::new(PathBuf::from("store"));
    assert_eq!(tpm.capabilities().platform, "linux-tpm");
    assert_eq!(TpmBackend::blob_file_name("device"), "ZGV2aWNl.tpm.json");
    assert_eq!(
        TpmBackend::check_protection(KeyProtection::UserPresent).unwrap_err().code,
        SignerErrorCode::HardwareUnavailable
    );
    assert!(TpmBackend::check_protection(KeyProtection::Ambient).is_ok());
    assert!(TpmBackend::plan_generate("device", false, true).is_err());
    assert!(TpmBackend::plan_generate("device", true, true).is_ok());

    let padded = linux::left_pad(&[1, 2, 3]).unwrap();
    assert_eq!(padded.len(), 32);
    assert_eq!(&padded[29..], &[1, 2, 3]);
    assert!(padded[..29].iter().all(|b| *b == 0));
    assert_eq!(
        linux::left_pad(&[0; 33]).unwrap_err().message,
        "Expected at most 32 bytes, got 33"
    );
    let signature = linux::p1363_from_components(&[7], &[9; 32]).unwrap();
    assert_eq!(signature.len(), 64);
    assert_eq!(signature[31], 7);
    assert_eq!(&signature[32..], &[9; 32]);
    assert!(!TpmBackend::interpret_read("k", linux::BlobRead::Missing).unwrap());
    assert_eq!(TpmBackend::missing_key("k").code, SignerErrorCode::KeyNotFound);
}

#[test]
fn the_default_key_ids_are_stable() {
    assert_eq!(sign_keypair::DEFAULT_KEY_ID, "device");
    assert_eq!(sign_keypair::DEFAULT_USER_PRESENT_KEY_ID, "device_user_present");
}
