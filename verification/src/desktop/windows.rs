//! The decisions of the Windows CNG backend, which prefers the TPM.
//!
//! Windows exposes key storage through NCrypt, and the Microsoft Platform Crypto
//! Provider keeps the key in the TPM, reported as `tee`: `strongbox` means
//! *Android StrongBox specifically* in this plugin's vocabulary, and both
//! classify as hardware-backed, which is the only distinction a caller acts on.
//!
//! What CNG does differently from Apple: it signs a **hash**, not a message, so
//! SHA-256 is applied here; its ECDSA signatures come back as raw `r‖s`
//! already; and there is no per-key biometric binding, so a user-present key is
//! refused. The NCrypt calls are the caller's; this backend is not selected by
//! [`crate::desktop::select_backend`] yet.

use vstd::prelude::*;

use crate::b64::{base64url_text, encode};
use crate::desktop::copy_range;
use crate::error::{Error, SignerErrorCode};
use crate::models::{EcPublicJwk, KeyBacking, KeyProtection, SignerCapabilities};
use crate::text::{decimal, decimal_text, framed, hex, hex_digits, joined, joined3, quoted};

verus! {

/// Namespace for key names inside the provider, matching the other platforms'
/// tag / alias prefix.
pub const KEY_NAME_PREFIX: &'static str = "app.vaam.signkeypair.";

/// `BCRYPT_ECCKEY_BLOB.dwMagic` for a P-256 public key.
pub const BCRYPT_ECDSA_PUBLIC_P256_MAGIC: u32 = 0x3153_4345;

/// Bytes in one P-256 coordinate.
pub const COORDINATE_LENGTH: usize = 32;

/// Bytes of the `BCRYPT_ECCKEY_BLOB` header: magic, then coordinate length.
pub const BLOB_HEADER_LENGTH: usize = 8;

/// The message refusing a user-present key on Windows.
pub open spec fn no_presence_message() -> Seq<char> {
    "Windows cannot bind a key to a biometric enrolment the way Android and iOS can — user-present operations are not supported on this platform. See the note on NCRYPT_UI_POLICY and KeyCredentialManager in the plugin docs."@
}

/// The TPM-backed CNG signer.
pub struct CngBackend;

impl CngBackend {
    /// What this machine can do: a TPM.
    pub fn capabilities(&self) -> (c: SignerCapabilities)
        ensures
            c.platform@ == "windows"@,
            c.best_available_backing == KeyBacking::TrustedExecutionEnvironment,
            c.hardware_backed,
    {
        SignerCapabilities::new("windows", KeyBacking::TrustedExecutionEnvironment)
    }

    /// The check before creating a key, made before the provider is opened.
    ///
    /// **A user-present key is refused**: Windows has no equivalent of a key
    /// bound to a biometric enrolment, so issuing a key that answers to the name
    /// `user_present` would make downstream checks assert something untrue.
    /// `require_hardware` needs no check: reaching this backend at all means the
    /// probe persisted a key in the TPM.
    pub fn check_protection(&self, protection: KeyProtection) -> (r: Result<(), Error>)
        ensures
            protection.prompts() ==> r is Err && r->Err_0.is(
                SignerErrorCode::HardwareUnavailable,
                no_presence_message(),
            ),
            !protection.prompts() ==> r is Ok,
    {
        if protection.requires_user_presence() {
            return Err(
                Error::new(
                    SignerErrorCode::HardwareUnavailable,
                    "Windows cannot bind a key to a biometric enrolment the way Android and iOS can — user-present operations are not supported on this platform. See the note on NCRYPT_UI_POLICY and KeyCredentialManager in the plugin docs.",
                ),
            );
        }
        Ok(())
    }

    /// The check after opening the key, given whether one exists under
    /// `key_id`: `Ok(true)` means the incumbent must be deleted first.
    pub fn plan_generate(&self, key_id: &str, overwrite: bool, exists: bool) -> (r: Result<
        bool,
        Error,
    >)
        ensures
            exists && !overwrite ==> r is Err && r->Err_0.is(
                SignerErrorCode::KeyAlreadyExists,
                quoted("A key already exists under "@, key_id@, ""@),
            ),
            overwrite || !exists ==> r == Ok::<bool, Error>(exists),
    {
        if exists && !overwrite {
            let message = framed("A key already exists under ", key_id, "");
            return Err(Error::new(SignerErrorCode::KeyAlreadyExists, message.as_str()));
        }
        Ok(exists)
    }
}

/// `app.vaam.signkeypair.<key_id>`, the name the key is persisted under.
pub fn key_name(key_id: &str) -> (name: String)
    ensures
        name@ == KEY_NAME_PREFIX@ + key_id@,
{
    joined(KEY_NAME_PREFIX, key_id)
}

/// The little-endian `u32` at `blob[at..at + 4]`.
pub open spec fn le_u32(blob: Seq<u8>, at: int) -> int {
    blob[at] + blob[at + 1] * 256 + blob[at + 2] * 65536 + blob[at + 3] * 16777216
}

fn read_le_u32(blob: &[u8], at: usize) -> (v: u32)
    requires
        at + 4 <= blob@.len(),
    ensures
        v == le_u32(blob@, at as int),
{
    blob[at] as u32 + blob[at + 1] as u32 * 256 + blob[at + 2] as u32 * 65536 + blob[at + 3] as u32
        * 16777216
}

/// The JWK in a `BCRYPT_ECCPUBLIC_BLOB`: an 8-byte header (magic, coordinate
/// length, little-endian) followed by X then Y, big-endian and already fixed
/// width — no sign byte to strip and no padding to do.
pub fn ecc_public_blob_jwk(blob: &[u8]) -> (r: Result<EcPublicJwk, Error>)
    ensures
        blob@.len() < 72 ==> r is Err && r->Err_0.is(
            SignerErrorCode::KeystoreFailure,
            "Public key blob is "@ + decimal_text(blob@.len()) + " bytes, too short"@,
        ),
        blob@.len() >= 72 && (le_u32(blob@, 0) != BCRYPT_ECDSA_PUBLIC_P256_MAGIC || le_u32(blob@, 4)
            != 32) ==> r is Err && r->Err_0.is(
            SignerErrorCode::KeystoreFailure,
            "Expected a P-256 public blob, got magic "@ + "0x"@ + hex_digits(
                le_u32(blob@, 0) as nat,
            ) + " cbKey "@ + decimal_text(le_u32(blob@, 4) as nat),
        ),
        blob@.len() >= 72 && le_u32(blob@, 0) == BCRYPT_ECDSA_PUBLIC_P256_MAGIC && le_u32(blob@, 4)
            == 32 ==> r is Ok && r->Ok_0.is_p256(
            base64url_text(blob@.subrange(8, 40)),
            base64url_text(blob@.subrange(40, 72)),
        ),
{
    if blob.len() < BLOB_HEADER_LENGTH + COORDINATE_LENGTH * 2 {
        let message = joined3("Public key blob is ", decimal(blob.len()).as_str(), " bytes, too short");
        return Err(Error::new(SignerErrorCode::KeystoreFailure, message.as_str()));
    }
    let magic = read_le_u32(blob, 0);
    let cb_key = read_le_u32(blob, 4);
    if magic != BCRYPT_ECDSA_PUBLIC_P256_MAGIC || cb_key != 32 {
        let head = joined("Expected a P-256 public blob, got magic ", hex(magic).as_str());
        proof {
            assert(head@ =~= "Expected a P-256 public blob, got magic "@ + "0x"@ + hex_digits(
                magic as nat,
            ));
        }
        let message = joined3(head.as_str(), " cbKey ", decimal(cb_key as usize).as_str());
        return Err(Error::new(SignerErrorCode::KeystoreFailure, message.as_str()));
    }
    let x = copy_range(blob, BLOB_HEADER_LENGTH, BLOB_HEADER_LENGTH + COORDINATE_LENGTH);
    let y = copy_range(
        blob,
        BLOB_HEADER_LENGTH + COORDINATE_LENGTH,
        BLOB_HEADER_LENGTH + COORDINATE_LENGTH * 2,
    );
    Ok(EcPublicJwk::new(encode(x.as_slice()), encode(y.as_slice())))
}

/// Check that CNG returned a fixed-width `r‖s`: a 70-odd-byte result would
/// mean this provider returned DER after all, and a JWS built from it would
/// fail verification on the server with nothing useful in the logs.
pub fn checked_p1363(signature: Vec<u8>) -> (r: Result<Vec<u8>, Error>)
    ensures
        signature@.len() == 64 ==> (r matches Ok(s) && s@ == signature@),
        signature@.len() != 64 ==> r is Err && r->Err_0.is(
            SignerErrorCode::KeystoreFailure,
            "Expected a 64-byte P1363 signature, got "@ + decimal_text(signature@.len()),
        ),
{
    if signature.len() != COORDINATE_LENGTH * 2 {
        let message = joined("Expected a 64-byte P1363 signature, got ", decimal(signature.len()).as_str());
        return Err(Error::new(SignerErrorCode::KeystoreFailure, message.as_str()));
    }
    Ok(signature)
}

/// The provider could not be opened: this machine has no usable TPM.
pub fn provider_error(detail: &str) -> (e: Error)
    ensures
        e.is(SignerErrorCode::HardwareUnavailable, "This machine has no usable TPM: "@ + detail@),
{
    let message = joined("This machine has no usable TPM: ", detail);
    Error::new(SignerErrorCode::HardwareUnavailable, message.as_str())
}

/// An NCrypt call that failed, named with the provider's explanation.
pub fn ncrypt_error(code: SignerErrorCode, what: &str, detail: &str) -> (e: Error)
    ensures
        e.is(code, what@ + " failed: "@ + detail@),
{
    let message = joined3(what, " failed: ", detail);
    Error::new(code, message.as_str())
}

/// Signing with a key that cannot be opened: there is no key under that id.
pub fn missing_key(key_id: &str) -> (e: Error)
    ensures
        e.is(SignerErrorCode::KeyNotFound, quoted("No key stored under "@, key_id@, ""@)),
{
    let message = framed("No key stored under ", key_id, "");
    Error::new(SignerErrorCode::KeyNotFound, message.as_str())
}

} // verus!
