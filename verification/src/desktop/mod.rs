//! Desktop backends, and how one is chosen.
//!
//! A desktop machine may or may not have a secure element, and which one it
//! has depends on the OS. The probe happens **once**, at plugin init, and the
//! result is fixed for the process: re-probing per call could silently start
//! issuing software keys under the same key id as the hardware ones.
//!
//! | OS | Native backend | Status |
//! |---|---|---|
//! | macOS | Secure Enclave / data-protection keychain | selected when its probe succeeds |
//! | Windows | CNG, Microsoft Platform Crypto Provider (TPM) | not selected yet |
//! | Linux | TPM 2.0 via the TSS Enhanced System API | not selected yet |
//!
//! Until Windows and Linux are selected, they resolve to `software`, which
//! reports `backing: "software"` and `hardware_backed: false` — under-claiming
//! rather than over-claiming.

use vstd::prelude::*;

use std::path::PathBuf;

use crate::crypto::{sha256, sha256_digest};
use crate::error::{Error, SignerErrorCode};
use crate::models::{KeyBacking, SignerCapabilities};
use crate::text::joined;

pub mod linux;
pub mod macos;
pub mod software;
pub mod windows;

use macos::SecureEnclaveBackend;
use software::SoftwareBackend;

verus! {

/// `std::path::PathBuf`, carried through to the file operations the caller performs.
#[verifier::external_type_specification]
#[verifier::external_body]
pub struct ExPathBuf(PathBuf);

/// The path `std::path::Path::join` makes of `directory` and the file name
/// `name`; `join` is a pure function of the two.
pub uninterp spec fn joined_path(directory: PathBuf, name: Seq<char>) -> PathBuf;

/// Calls `std::path::Path::join`. Trusted: the result is `joined_path` of the
/// directory and the name, since `join` depends on nothing else.
#[verifier::external_body]
pub(crate) fn path_join(directory: &PathBuf, name: &str) -> (path: PathBuf)
    ensures
        path == joined_path(*directory, name@),
{
    directory.join(name)
}

/// X9.63 / SEC1 uncompressed point: `0x04 || X(32) || Y(32)`.
pub const UNCOMPRESSED_POINT_LENGTH: usize = 65;

/// The X and Y coordinates of an uncompressed point, or `None` when `raw` is not
/// 65 bytes starting with `0x04`.
pub open spec fn point_coordinates(raw: Seq<u8>) -> Option<(Seq<u8>, Seq<u8>)> {
    if raw.len() == 65 && raw[0] == 0x04 {
        Some((raw.subrange(1, 33), raw.subrange(33, 65)))
    } else {
        None
    }
}

pub fn copy_range(raw: &[u8], start: usize, end: usize) -> (out: Vec<u8>)
    requires
        start <= end <= raw@.len(),
    ensures
        out@ == raw@.subrange(start as int, end as int),
{
    let mut out: Vec<u8> = Vec::new();
    let mut i = start;
    while i < end
        invariant
            start <= i <= end,
            end <= raw@.len(),
            out@ =~= raw@.subrange(start as int, i as int),
        decreases end - i,
    {
        out.push(raw[i]);
        i = i + 1;
    }
    out
}

/// Split an uncompressed point into its two 32-byte coordinates.
pub fn split_uncompressed_point(raw: &[u8]) -> (r: Option<(Vec<u8>, Vec<u8>)>)
    ensures
        match point_coordinates(raw@) {
            Some((x, y)) => r matches Some((rx, ry)) && rx@ == x && ry@ == y,
            None => r is None,
        },
{
    if raw.len() != UNCOMPRESSED_POINT_LENGTH || raw[0] != 0x04 {
        return None;
    }
    Some((copy_range(raw, 1, 33), copy_range(raw, 33, 65)))
}

/// What a TPM signs for `payload` (CNG's `NCryptSignHash`, TSS `TPM2_Sign`):
/// its SHA-256 digest. Apple and java.security digest internally; for a TPM it
/// is this library's job, and getting it wrong produces a signature over the
/// wrong bytes that verifies against nothing.
pub fn signing_digest(payload: &[u8]) -> (digest: Vec<u8>)
    ensures
        digest@ == sha256_digest(payload@),
        digest@.len() == 32,
{
    sha256(payload)
}

/// The desktop backend chosen at init.
pub enum DesktopBackend {
    /// The macOS Secure Enclave / data-protection keychain.
    SecureEnclave(SecureEnclaveBackend),
    /// The file-backed software signer.
    Software(SoftwareBackend),
}

/// Choose the backend, once: the native one when its probe succeeded, the
/// software fallback otherwise.
///
/// A native probe answers `None` rather than an error when the platform cannot
/// serve it, because "this machine has no secure element" is the ordinary case
/// that the software fallback exists for.
pub fn select_backend(native: Option<SecureEnclaveBackend>, directory: PathBuf) -> (b: DesktopBackend)
    ensures
        match native {
            Some(n) => b == DesktopBackend::SecureEnclave(n),
            None => b matches DesktopBackend::Software(s) && s.directory() == directory,
        },
{
    match native {
        Some(backend) => DesktopBackend::SecureEnclave(backend),
        None => DesktopBackend::Software(SoftwareBackend::new(directory)),
    }
}

impl DesktopBackend {
    /// What the chosen backend can do.
    pub fn capabilities(&self) -> (c: SignerCapabilities)
        ensures
            match self {
                DesktopBackend::SecureEnclave(n) => c.platform@ == "macos"@
                    && c.best_available_backing == n.backing_spec(),
                DesktopBackend::Software(_) => c.platform@ == "rust-software"@
                    && c.best_available_backing == KeyBacking::Software,
            },
            c.hardware_backed == c.best_available_backing.hardware(),
    {
        match self {
            DesktopBackend::SecureEnclave(n) => n.capabilities(),
            DesktopBackend::Software(s) => s.capabilities(),
        }
    }
}

/// The error for an app local data directory that could not be resolved.
pub fn data_directory_error(detail: &str) -> (e: Error)
    ensures
        e.is(
            SignerErrorCode::KeystoreFailure,
            "Could not resolve the app local data directory: "@ + detail@,
        ),
{
    let message = joined("Could not resolve the app local data directory: ", detail);
    Error::new(SignerErrorCode::KeystoreFailure, message.as_str())
}

} // verus!
