//! The decisions of the macOS Secure Enclave / data-protection keychain backend.
//!
//! Apple silicon and T2 Macs have a Secure Enclave; a key created there is
//! non-extractable and reported as `secure_enclave`. An older Intel Mac has
//! none, so the key becomes an ordinary data-protection keychain item, reported
//! as `keychain`, which this plugin deliberately does **not** count as
//! hardware-backed. The Security-framework calls themselves are made by the
//! caller; what stands here is the access policy, the order of the checks, the
//! public key's encoding and the mapping of every status code onto an error.

use vstd::prelude::*;

use crate::b64::{base64url_text, encode};
use crate::desktop::{point_coordinates, split_uncompressed_point};
use crate::error::{Error, SignerErrorCode};
use crate::models::{EcPublicJwk, KeyBacking, KeyProtection, SignerCapabilities};
use crate::text::{decimal, framed, joined, joined3, quoted, signed_decimal, signed_decimal_text, decimal_text};

verus! {

/// Namespace for `kSecAttrApplicationTag`, identical to the iOS plugin's, so
/// the two implementations address the same items.
pub const TAG_PREFIX: &'static str = "app.vaam.signkeypair.";

/// `errSecItemNotFound`.
pub const ERR_SEC_ITEM_NOT_FOUND: i32 = -25300;

/// `errSecUserCanceled` — the prompt was dismissed.
pub const ERR_SEC_USER_CANCELED: i32 = -128;

/// `errSecInteractionNotAllowed` — the item exists but cannot be used right now.
pub const ERR_SEC_INTERACTION_NOT_ALLOWED: i32 = -25308;

/// `errSecAuthFailed` — what the enclave returns for a key whose biometry set
/// has changed since creation.
pub const ERR_SEC_AUTH_FAILED: i32 = -25293;

/// The macOS backend, as its startup probe found the machine.
pub struct SecureEnclaveBackend {
    enclave_available: bool,
}

/// When a keychain item may be used.
#[derive(Debug, Clone, Copy, PartialEq, Eq, Structural)]
pub enum Accessibility {
    /// `kSecAttrAccessibleAfterFirstUnlockThisDeviceOnly`: also while locked,
    /// so background request signing continues.
    AfterFirstUnlockThisDeviceOnly,
    /// `kSecAttrAccessibleWhenUnlockedThisDeviceOnly`: only while unlocked.
    WhenUnlockedThisDeviceOnly,
}

/// The `SecAccessControl` a key is created with.
#[derive(Debug, Clone, Copy, PartialEq, Eq, Structural)]
pub struct AccessPolicy {
    /// The accessibility class.
    pub accessibility: Accessibility,
    /// `kSecAccessControlPrivateKeyUsage`: what makes an enclave key usable for
    /// signing at all; on its own it prompts for nothing.
    pub private_key_usage: bool,
    /// `kSecAccessControlBiometryCurrentSet | Or | DevicePasscode`: a Touch ID
    /// fingerprint from the enrolment set that existed when the key was made,
    /// or the login password.
    pub biometry_or_passcode: bool,
}

/// The access policy for the two-key model.
///
/// The ambient key must be readable while the screen is locked; the
/// user-present key only ever signs a deliberate action, so it is narrowed to
/// `WhenUnlocked`. `ThisDeviceOnly` on both keeps the key out of iCloud
/// Keychain. `biometryCurrentSet` rather than `biometryAny`, so a newly
/// enrolled fingerprint does not inherit the key's authority.
pub fn access_policy(protection: KeyProtection, use_enclave: bool) -> (p: AccessPolicy)
    ensures
        p.accessibility == (if protection.prompts() {
            Accessibility::WhenUnlockedThisDeviceOnly
        } else {
            Accessibility::AfterFirstUnlockThisDeviceOnly
        }),
        p.private_key_usage == use_enclave,
        p.biometry_or_passcode == protection.prompts(),
{
    let prompts = protection.requires_user_presence();
    AccessPolicy {
        accessibility: if prompts {
            Accessibility::WhenUnlockedThisDeviceOnly
        } else {
            Accessibility::AfterFirstUnlockThisDeviceOnly
        },
        private_key_usage: use_enclave,
        biometry_or_passcode: prompts,
    }
}

impl SecureEnclaveBackend {
    /// Whether the startup probe found a Secure Enclave.
    pub closed spec fn enclave(&self) -> bool {
        self.enclave_available
    }

    /// The backing every key of this backend has.
    pub open spec fn backing_spec(&self) -> KeyBacking {
        if self.enclave() {
            KeyBacking::SecureEnclave
        } else {
            KeyBacking::Keychain
        }
    }

    /// The backend for a machine whose probe did (or did not) find an enclave.
    pub fn new(enclave_available: bool) -> (b: SecureEnclaveBackend)
        ensures
            b.enclave() == enclave_available,
    {
        SecureEnclaveBackend { enclave_available }
    }

    /// Whether the startup probe found a Secure Enclave.
    pub fn enclave_available(&self) -> (r: bool)
        ensures
            r == self.enclave(),
    {
        self.enclave_available
    }

    /// `secure_enclave` when there is one, `keychain` otherwise.
    pub fn backing(&self) -> (b: KeyBacking)
        ensures
            b == self.backing_spec(),
    {
        if self.enclave_available {
            KeyBacking::SecureEnclave
        } else {
            KeyBacking::Keychain
        }
    }

    /// What this Mac can do.
    pub fn capabilities(&self) -> (c: SignerCapabilities)
        ensures
            c.platform@ == "macos"@,
            c.best_available_backing == self.backing_spec(),
            c.hardware_backed == self.backing_spec().hardware(),
    {
        SignerCapabilities::new("macos", self.backing())
    }

    /// The capability check before creating a key, made FIRST — before the
    /// keychain is even looked up, and so before anything destructive:
    /// `overwrite` deletes the incumbent, so a rejection after that point would
    /// leave the Mac with no credential at all.
    pub fn check_hardware(&self, require_hardware: bool) -> (r: Result<(), Error>)
        ensures
            require_hardware && !self.enclave() ==> r is Err && r->Err_0.is(
                SignerErrorCode::HardwareUnavailable,
                "This Mac has no Secure Enclave and requireHardware was set"@,
            ),
            !(require_hardware && !self.enclave()) ==> r is Ok,
    {
        if require_hardware && !self.enclave_available {
            return Err(
                Error::new(
                    SignerErrorCode::HardwareUnavailable,
                    "This Mac has no Secure Enclave and requireHardware was set",
                ),
            );
        }
        Ok(())
    }

    /// The check after the lookup, given whether a key exists under `key_id`:
    /// `Ok(true)` means the incumbent must be deleted before the new key is
    /// created.
    pub fn plan_generate(&self, key_id: &str, overwrite: bool, exists: bool) -> (r: Result<
        bool,
        Error,
    >)
        ensures
            exists && !overwrite ==> r is Err && r->Err_0.is(
                SignerErrorCode::KeyAlreadyExists,
                quoted("A key already exists under "@, key_id@, ""@),
            ),
            overwrite || !exists ==> r == Ok::<bool, Error>(exists),
    {
        if exists && !overwrite {
            let message = framed("A key already exists under ", key_id, "");
            return Err(Error::new(SignerErrorCode::KeyAlreadyExists, message.as_str()));
        }
        Ok(exists)
    }
}

/// The backing of a stored key, read back from its own token attribute rather
/// than inferred from how it was requested, so a silent fallback inside the
/// Security framework cannot be reported as enclave-backed.
pub fn stored_key_backing(is_enclave_key: bool) -> (b: KeyBacking)
    ensures
        b == (if is_enclave_key {
            KeyBacking::SecureEnclave
        } else {
            KeyBacking::Keychain
        }),
{
    if is_enclave_key {
        KeyBacking::SecureEnclave
    } else {
        KeyBacking::Keychain
    }
}

/// `app.vaam.signkeypair.<key_id>`, the application tag the keychain stores.
pub fn tag_text(key_id: &str) -> (t: String)
    ensures
        t@ == TAG_PREFIX@ + key_id@,
{
    joined(TAG_PREFIX, key_id)
}

/// The public half, as an RFC 7517 JWK, from its X9.63 uncompressed encoding
/// `0x04 || X (32) || Y (32)`.
pub fn public_jwk_from_x963(raw: &[u8]) -> (r: Result<EcPublicJwk, Error>)
    ensures
        match point_coordinates(raw@) {
            Some((x, y)) => r matches Ok(jwk) && jwk.is_p256(base64url_text(x), base64url_text(y)),
            None => r is Err && r->Err_0.is(
                SignerErrorCode::KeystoreFailure,
                "Unexpected public key encoding ("@ + decimal_text(raw@.len()) + " bytes)"@,
            ),
        },
{
    match split_uncompressed_point(raw) {
        Some((x, y)) => Ok(EcPublicJwk::new(encode(x.as_slice()), encode(y.as_slice()))),
        None => {
            let message = joined3(
                "Unexpected public key encoding (",
                decimal(raw.len()).as_str(),
                " bytes)",
            );
            Err(Error::new(SignerErrorCode::KeystoreFailure, message.as_str()))
        },
    }
}

/// A failed Security-framework call, with its numeric status in the message.
pub fn status_error(what: &str, status: i32) -> (e: Error)
    ensures
        e.is(
            SignerErrorCode::KeystoreFailure,
            what@ + " failed with status "@ + signed_decimal_text(status as int),
        ),
{
    let message = joined3(what, " failed with status ", signed_decimal(status).as_str());
    Error::new(SignerErrorCode::KeystoreFailure, message.as_str())
}

/// Map a signing failure's code onto one the frontend can act on.
///
/// The distinction that earns its keep is cancelled-versus-anything-else: a
/// dismissed prompt is someone changing their mind, and treating it as an auth
/// failure would trigger re-enrolment for a routine interaction.
pub fn signing_error(code: i32) -> (e: Error)
    ensures
        code == ERR_SEC_USER_CANCELED ==> e.is(
            SignerErrorCode::UserAuthenticationCancelled,
            "The authentication prompt was dismissed"@,
        ),
        code == ERR_SEC_INTERACTION_NOT_ALLOWED ==> e.is(
            SignerErrorCode::UserAuthenticationRequired,
            "This key requires user presence and cannot be used from the background"@,
        ),
        code == ERR_SEC_AUTH_FAILED ==> e.is(
            SignerErrorCode::KeyInvalidated,
            "The key was invalidated by a change to this Mac's Touch ID enrolment or password"@,
        ),
        code != ERR_SEC_USER_CANCELED && code != ERR_SEC_INTERACTION_NOT_ALLOWED && code
            != ERR_SEC_AUTH_FAILED ==> e.is(
            SignerErrorCode::KeystoreFailure,
            "SecKeyCreateSignature"@ + " failed with status "@ + signed_decimal_text(code as int),
        ),
{
    if code == ERR_SEC_USER_CANCELED {
        Error::new(
            SignerErrorCode::UserAuthenticationCancelled,
            "The authentication prompt was dismissed",
        )
    } else if code == ERR_SEC_INTERACTION_NOT_ALLOWED {
        Error::new(
            SignerErrorCode::UserAuthenticationRequired,
            "This key requires user presence and cannot be used from the background",
        )
    } else if code == ERR_SEC_AUTH_FAILED {
        // `biometryCurrentSet` firing as designed: the Touch ID enrolment
        // changed, so this key is gone. The ambient key is untouched.
        Error::new(
            SignerErrorCode::KeyInvalidated,
            "The key was invalidated by a change to this Mac's Touch ID enrolment or password",
        )
    } else {
        status_error("SecKeyCreateSignature", code)
    }
}

/// Interpret `SecItemCopyMatching`: whether the key is there, or why the lookup
/// failed. A missing item is simply no key.
pub fn lookup_outcome(status: i32, item_returned: bool) -> (r: Result<bool, Error>)
    ensures
        status == 0 ==> r == Ok::<bool, Error>(item_returned),
        status == ERR_SEC_ITEM_NOT_FOUND ==> r == Ok::<bool, Error>(false),
        status != 0 && status != ERR_SEC_ITEM_NOT_FOUND ==> r is Err && r->Err_0.is(
            SignerErrorCode::KeystoreFailure,
            "SecItemCopyMatching"@ + " failed with status "@ + signed_decimal_text(status as int),
        ),
{
    if status == 0 {
        Ok(item_returned)
    } else if status == ERR_SEC_ITEM_NOT_FOUND {
        Ok(false)
    } else {
        Err(status_error("SecItemCopyMatching", status))
    }
}

/// Interpret `SecItemDelete`: removing a key that does not exist is a no-op.
pub fn delete_outcome(status: i32) -> (r: Result<(), Error>)
    ensures
        (status == 0 || status == ERR_SEC_ITEM_NOT_FOUND) ==> r is Ok,
        status != 0 && status != ERR_SEC_ITEM_NOT_FOUND ==> r is Err && r->Err_0.is(
            SignerErrorCode::KeystoreFailure,
            "SecItemDelete"@ + " failed with status "@ + signed_decimal_text(status as int),
        ),
{
    if status == 0 || status == ERR_SEC_ITEM_NOT_FOUND {
        Ok(())
    } else {
        Err(status_error("SecItemDelete", status))
    }
}

/// A backing reported for a Mac key is hardware exactly when the enclave holds
/// it: a keychain item never counts.
pub proof fn lemma_mac_backing_is_honest(b: SecureEnclaveBackend)
    ensures
        b.backing_spec().hardware() == b.enclave(),
{
}

} // verus!
