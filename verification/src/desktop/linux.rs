//! The decisions of the Linux TPM 2.0 backend (TSS Enhanced System API).
//!
//! A TPM key is created under a parent and comes back as a public blob plus an
//! *encrypted* private blob that only this TPM can load; the blobs go in one
//! file per key in the app data directory and the parent is re-derived on each
//! use. Backing is `tee`. A user-present key is **refused**: a TPM can demand an
//! auth value per use, but there is no OS-level prompt and no binding to a
//! biometric enrolment.
//!
//! The TPM calls are the caller's; this backend is not selected by
//! [`crate::desktop::select_backend`] yet.

use vstd::prelude::*;

use std::path::PathBuf;

use crate::asn1::left_padded;
use crate::b64::{base64url_text, encode};
use crate::desktop::{joined_path, path_join};
use crate::desktop::software::Removal;
use crate::error::{Error, SignerErrorCode};
use crate::jws::all_base64url;
use crate::models::{EcPublicJwk, KeyBacking, KeyProtection, SignerCapabilities};
use crate::text::{decimal, decimal_text, framed, joined, quoted};
use vstd::string::StringSliceAdditionalSpecFns;

verus! {

/// Bytes in one P-256 coordinate.
pub const COORDINATE_LENGTH: usize = 32;

/// The message refusing a user-present key on Linux.
pub open spec fn no_presence_message() -> Seq<char> {
    "A TPM cannot bind a key to a biometric enrolment, and Linux has no OS-level presence prompt — user-present operations are not supported on this platform."@
}

/// What reading one key's blob file gave.
pub enum BlobRead {
    /// The file was read; its bytes are for the caller to parse.
    Found,
    /// There is no file for this key.
    Missing,
    /// The file exists but its blobs do not parse; the parser's explanation.
    Unreadable(String),
    /// The file could not be read; the I/O error's explanation.
    Failed(String),
}

/// The TPM-backed signer, keeping its blob files under `directory`.
pub struct TpmBackend {
    directory: PathBuf,
}

/// A keystore failure with `message`.
pub fn keystore(message: &str) -> (e: Error)
    ensures
        e.is(SignerErrorCode::KeystoreFailure, message@),
{
    Error::new(SignerErrorCode::KeystoreFailure, message)
}

impl TpmBackend {
    /// The directory the blob files live in.
    pub closed spec fn directory(&self) -> PathBuf {
        self.directory
    }

    /// A signer storing its blobs under `directory`.
    pub fn new(directory: PathBuf) -> (b: TpmBackend)
        ensures
            b.directory() == directory,
    {
        TpmBackend { directory }
    }

    /// The directory the blob files live in.
    pub fn store_directory(&self) -> (d: &PathBuf)
        ensures
            *d == self.directory(),
    {
        &self.directory
    }

    /// What this machine can do: a TPM.
    pub fn capabilities(&self) -> (c: SignerCapabilities)
        ensures
            c.platform@ == "linux-tpm"@,
            c.best_available_backing == KeyBacking::TrustedExecutionEnvironment,
            c.hardware_backed,
    {
        SignerCapabilities::new("linux-tpm", KeyBacking::TrustedExecutionEnvironment)
    }

    /// The file name of one key's blobs: the base64url of the key id, so an id
    /// containing `/` or `..` cannot name a path outside the store.
    pub fn blob_file_name(key_id: &str) -> (name: String)
        requires
            key_id.spec_bytes().len() <= isize::MAX,
        ensures
            name@ == base64url_text(key_id.spec_bytes()) + ".tpm.json"@,
            all_base64url(base64url_text(key_id.spec_bytes())),
    {
        let encoded = encode(key_id.as_bytes());
        joined(encoded.as_str(), ".tpm.json")
    }

    /// Where one key's blobs live.
    pub fn path_for(&self, key_id: &str) -> (path: PathBuf)
        requires
            key_id.spec_bytes().len() <= isize::MAX,
        ensures
            path == joined_path(self.directory(), base64url_text(key_id.spec_bytes()) + ".tpm.json"@),
    {
        let name = TpmBackend::blob_file_name(key_id);
        path_join(&self.directory, name.as_str())
    }

    /// The check before creating a key, made before the store is read.
    ///
    /// `require_hardware` needs no check: reaching this backend means the probe
    /// created a key in the TPM, so hardware is what you get.
    pub fn check_protection(protection: KeyProtection) -> (r: Result<(), Error>)
        ensures
            protection.prompts() ==> r is Err && r->Err_0.is(
                SignerErrorCode::HardwareUnavailable,
                no_presence_message(),
            ),
            !protection.prompts() ==> r is Ok,
    {
        if protection.requires_user_presence() {
            return Err(
                Error::new(
                    SignerErrorCode::HardwareUnavailable,
                    "A TPM cannot bind a key to a biometric enrolment, and Linux has no OS-level presence prompt — user-present operations are not supported on this platform.",
                ),
            );
        }
        Ok(())
    }

    /// The check after the store was read — which happens only when not
    /// overwriting — given whether a key exists under `key_id`.
    pub fn plan_generate(key_id: &str, overwrite: bool, exists: bool) -> (r: Result<(), Error>)
        ensures
            exists && !overwrite ==> r is Err && r->Err_0.is(
                SignerErrorCode::KeyAlreadyExists,
                quoted("A key already exists under "@, key_id@, ""@),
            ),
            overwrite || !exists ==> r is Ok,
    {
        if !overwrite && exists {
            let message = framed("A key already exists under ", key_id, "");
            return Err(Error::new(SignerErrorCode::KeyAlreadyExists, message.as_str()));
        }
        Ok(())
    }

    /// Interpret a read of one key's blob file: `Ok(true)` when there are blobs
    /// to parse, `Ok(false)` when there is no key.
    pub fn interpret_read(key_id: &str, read: BlobRead) -> (r: Result<bool, Error>)
        ensures
            match read {
                BlobRead::Found => r == Ok::<bool, Error>(true),
                BlobRead::Missing => r == Ok::<bool, Error>(false),
                BlobRead::Unreadable(why) => r is Err && r->Err_0.is(
                    SignerErrorCode::KeystoreFailure,
                    quoted("The stored blobs for "@, key_id@, " are unreadable: "@) + why@,
                ),
                BlobRead::Failed(why) => r is Err && r->Err_0.is(
                    SignerErrorCode::KeystoreFailure,
                    quoted("Could not read "@, key_id@, ": "@) + why@,
                ),
            },
    {
        match read {
            BlobRead::Found => Ok(true),
            BlobRead::Missing => Ok(false),
            BlobRead::Unreadable(why) => {
                let head = framed("The stored blobs for ", key_id, " are unreadable: ");
                Err(keystore(joined(head.as_str(), why.as_str()).as_str()))
            },
            BlobRead::Failed(why) => {
                let head = framed("Could not read ", key_id, ": ");
                Err(keystore(joined(head.as_str(), why.as_str()).as_str()))
            },
        }
    }

    /// Interpret a removal of one key's blob file: removing a key that does not
    /// exist is a no-op. Nothing is persisted inside the TPM, so there is no NV
    /// slot to evict.
    pub fn interpret_removal(key_id: &str, removal: Removal) -> (r: Result<(), Error>)
        ensures
            match removal {
                Removal::Removed => r is Ok,
                Removal::Missing => r is Ok,
                Removal::Failed(why) => r is Err && r->Err_0.is(
                    SignerErrorCode::KeystoreFailure,
                    quoted("Could not delete "@, key_id@, ": "@) + why@,
                ),
            },
    {
        match removal {
            Removal::Removed => Ok(()),
            Removal::Missing => Ok(()),
            Removal::Failed(why) => {
                let head = framed("Could not delete ", key_id, ": ");
                Err(keystore(joined(head.as_str(), why.as_str()).as_str()))
            },
        }
    }

    /// Signing or loading a key that has no blobs: there is no key under that id.
    pub fn missing_key(key_id: &str) -> (e: Error)
        ensures
            e.is(SignerErrorCode::KeyNotFound, quoted("No key stored under "@, key_id@, ""@)),
    {
        let message = framed("No key stored under ", key_id, "");
        Error::new(SignerErrorCode::KeyNotFound, message.as_str())
    }
}

/// The TPM could not be opened.
pub fn open_error(detail: &str) -> (e: Error)
    ensures
        e.is(SignerErrorCode::HardwareUnavailable, "Could not open the TPM: "@ + detail@),
{
    let message = joined("Could not open the TPM: ", detail);
    Error::new(SignerErrorCode::HardwareUnavailable, message.as_str())
}

/// Left-pad a minimally-encoded TPM parameter to exactly 32 bytes.
///
/// The TPM strips leading zeros, so a coordinate or signature component whose
/// top byte is zero comes back short — the same ~1-in-256 hazard the DER paths
/// have, arriving by a different route.
pub fn left_pad(value: &[u8]) -> (r: Result<Vec<u8>, Error>)
    ensures
        value@.len() <= 32 ==> (r matches Ok(out) && out@ == left_padded(value@)),
        value@.len() > 32 ==> r is Err && r->Err_0.is(
            SignerErrorCode::KeystoreFailure,
            "Expected at most 32 bytes, got "@ + decimal_text(value@.len()),
        ),
{
    if value.len() > COORDINATE_LENGTH {
        let message = joined("Expected at most 32 bytes, got ", decimal(value.len()).as_str());
        return Err(keystore(message.as_str()));
    }
    let mut out: Vec<u8> = Vec::with_capacity(COORDINATE_LENGTH);
    let mut i: usize = 0;
    while i < COORDINATE_LENGTH - value.len()
        invariant
            value@.len() <= 32,
            i <= COORDINATE_LENGTH - value@.len(),
            out@ =~= Seq::new(i as nat, |_j: int| 0u8),
        decreases COORDINATE_LENGTH - value@.len() - i,
    {
        out.push(0u8);
        i = i + 1;
    }
    let mut k: usize = 0;
    while k < value.len()
        invariant
            value@.len() <= 32,
            k <= value@.len(),
            out@ =~= Seq::new((COORDINATE_LENGTH - value@.len()) as nat, |_j: int| 0u8)
                + value@.subrange(0, k as int),
        decreases value@.len() - k,
    {
        out.push(value[k]);
        k = k + 1;
    }
    proof {
        assert(value@.subrange(0, value@.len() as int) =~= value@);
    }
    Ok(out)
}

/// The JWK of a TPM public area's affine coordinates, each left-padded.
pub fn jwk_from_coordinates(x: &[u8], y: &[u8]) -> (r: Result<EcPublicJwk, Error>)
    ensures
        x@.len() <= 32 && y@.len() <= 32 ==> r is Ok && r->Ok_0.is_p256(
            base64url_text(left_padded(x@)),
            base64url_text(left_padded(y@)),
        ),
        x@.len() > 32 || y@.len() > 32 ==> r is Err && r->Err_0.has_code(
            SignerErrorCode::KeystoreFailure,
        ),
{
    let px = left_pad(x)?;
    let py = left_pad(y)?;
    Ok(EcPublicJwk::new(encode(px.as_slice()), encode(py.as_slice())))
}

/// The P1363 `r‖s` of the TPM's separately returned, minimally-encoded
/// components, each left-padded to 32 bytes.
pub fn p1363_from_components(r: &[u8], s: &[u8]) -> (out: Result<Vec<u8>, Error>)
    ensures
        r@.len() <= 32 && s@.len() <= 32 ==> (out matches Ok(sig) && sig@ == left_padded(r@)
            + left_padded(s@)),
        r@.len() > 32 || s@.len() > 32 ==> out is Err && out->Err_0.has_code(
            SignerErrorCode::KeystoreFailure,
        ),
{
    let mut signature = left_pad(r)?;
    let padded_s = left_pad(s)?;
    let ghost first = signature@;
    let mut k: usize = 0;
    while k < padded_s.len()
        invariant
            padded_s@.len() == 32,
            k <= 32,
            signature@ =~= first + padded_s@.subrange(0, k as int),
        decreases 32 - k,
    {
        signature.push(padded_s[k]);
        k = k + 1;
    }
    proof {
        assert(padded_s@.subrange(0, 32) =~= padded_s@);
    }
    Ok(signature)
}

} // verus!
