//! Hardware-backed ES256 signing for device-bound authentication.
//!
//! The library holds the logic that every platform backend shares: the wire
//! vocabulary (`models`, `error`), the DER → IEEE P1363 signature conversion
//! (`asn1`), unpadded base64url (`b64`), compact JWS assembly (`jws`), the IPC
//! argument rules (`commands`), and the decisions each desktop backend makes
//! around the platform calls it cannot make itself (`desktop`, `mobile`).

use vstd::prelude::*;

pub mod asn1;
pub mod b64;
pub mod commands;
pub mod crypto;
pub mod desktop;
pub mod error;
pub mod jws;
pub mod mobile;
pub mod models;
pub mod text;

pub use error::{Error, SignerErrorCode};
pub use models::{EcPublicJwk, KeyBacking, KeyProtection, SecureKey, SignerCapabilities};

verus! {

/// The key id used when a caller does not name one — the *ambient* key, meant
/// to be signed with on every request, including from a background interceptor
/// or polling timer.
pub const DEFAULT_KEY_ID: &'static str = "device";

/// The key id for the *user-present* key — the one that prompts.
///
/// A separate alias rather than a flag on the same one, because the platform
/// stores the protection policy *with* the key: one alias cannot be both
/// prompting and silent, and rewriting it to switch would destroy the key.
pub const DEFAULT_USER_PRESENT_KEY_ID: &'static str = "device_user_present";

} // verus!
