//! Why a signer operation failed.
//!
//! Same wire↔enum discipline as [`crate::KeyBacking`]: the string exists only on
//! the IPC, and callers match on the enum.

use vstd::prelude::*;

use crate::text::{owned, same_text};

verus! {

/// Machine-readable reason a call failed. Match on this.
#[derive(Debug, Clone, Copy, PartialEq, Eq, Structural)]
pub enum SignerErrorCode {
    /// No key exists under the requested id.
    KeyNotFound,
    /// A key already exists under that id and `overwrite` was not set.
    KeyAlreadyExists,
    /// Hardware backing was required but the device cannot provide it.
    HardwareUnavailable,
    /// The platform keystore refused the operation.
    KeystoreFailure,
    /// A user-present key was requested or used, but the device has nothing to
    /// authenticate the user against (no biometric, no screen lock).
    UserAuthenticationRequired,
    /// The user dismissed the authentication prompt, or it timed out.
    UserAuthenticationCancelled,
    /// The key was permanently destroyed by a change to the device's biometric
    /// enrolment or screen lock.
    KeyInvalidated,
    /// This platform has no native implementation of the requested operation.
    UnsupportedPlatform,
    /// A code this build does not know; the raw string is kept on
    /// [`Error::raw_code`].
    Unknown,
}

impl SignerErrorCode {
    /// The tag this code crosses the wire as.
    pub open spec fn wire_tag(self) -> Seq<char> {
        match self {
            SignerErrorCode::KeyNotFound => "key_not_found"@,
            SignerErrorCode::KeyAlreadyExists => "key_already_exists"@,
            SignerErrorCode::HardwareUnavailable => "hardware_unavailable"@,
            SignerErrorCode::KeystoreFailure => "keystore_failure"@,
            SignerErrorCode::UserAuthenticationRequired => "user_authentication_required"@,
            SignerErrorCode::UserAuthenticationCancelled => "user_authentication_cancelled"@,
            SignerErrorCode::KeyInvalidated => "key_invalidated"@,
            SignerErrorCode::UnsupportedPlatform => "unsupported_platform"@,
            SignerErrorCode::Unknown => "unknown"@,
        }
    }

    /// The code a wire tag names, `Unknown` for any other tag.
    pub open spec fn parse_tag(wire: Seq<char>) -> SignerErrorCode {
        if wire == "key_not_found"@ {
            SignerErrorCode::KeyNotFound
        } else if wire == "key_already_exists"@ {
            SignerErrorCode::KeyAlreadyExists
        } else if wire == "hardware_unavailable"@ {
            SignerErrorCode::HardwareUnavailable
        } else if wire == "keystore_failure"@ {
            SignerErrorCode::KeystoreFailure
        } else if wire == "user_authentication_required"@ {
            SignerErrorCode::UserAuthenticationRequired
        } else if wire == "user_authentication_cancelled"@ {
            SignerErrorCode::UserAuthenticationCancelled
        } else if wire == "key_invalidated"@ {
            SignerErrorCode::KeyInvalidated
        } else if wire == "unsupported_platform"@ {
            SignerErrorCode::UnsupportedPlatform
        } else {
            SignerErrorCode::Unknown
        }
    }

    /// The tag this code crosses the wire as.
    pub fn as_wire(self) -> (w: &'static str)
        ensures
            w@ == self.wire_tag(),
    {
        match self {
            SignerErrorCode::KeyNotFound => "key_not_found",
            SignerErrorCode::KeyAlreadyExists => "key_already_exists",
            SignerErrorCode::HardwareUnavailable => "hardware_unavailable",
            SignerErrorCode::KeystoreFailure => "keystore_failure",
            SignerErrorCode::UserAuthenticationRequired => "user_authentication_required",
            SignerErrorCode::UserAuthenticationCancelled => "user_authentication_cancelled",
            SignerErrorCode::KeyInvalidated => "key_invalidated",
            SignerErrorCode::UnsupportedPlatform => "unsupported_platform",
            SignerErrorCode::Unknown => "unknown",
        }
    }

    /// Map a wire code onto an enum member, defaulting to [`Self::Unknown`].
    pub fn from_wire(wire: &str) -> (c: SignerErrorCode)
        ensures
            c == SignerErrorCode::parse_tag(wire@),
    {
        if same_text(wire, "key_not_found") {
            SignerErrorCode::KeyNotFound
        } else if same_text(wire, "key_already_exists") {
            SignerErrorCode::KeyAlreadyExists
        } else if same_text(wire, "hardware_unavailable") {
            SignerErrorCode::HardwareUnavailable
        } else if same_text(wire, "keystore_failure") {
            SignerErrorCode::KeystoreFailure
        } else if same_text(wire, "user_authentication_required") {
            SignerErrorCode::UserAuthenticationRequired
        } else if same_text(wire, "user_authentication_cancelled") {
            SignerErrorCode::UserAuthenticationCancelled
        } else if same_text(wire, "key_invalidated") {
            SignerErrorCode::KeyInvalidated
        } else if same_text(wire, "unsupported_platform") {
            SignerErrorCode::UnsupportedPlatform
        } else {
            SignerErrorCode::Unknown
        }
    }
}

/// Raised when the platform cannot satisfy a request.
#[derive(Debug, Clone)]
pub struct Error {
    /// Machine-readable reason. Match on this.
    pub code: SignerErrorCode,
    /// The code exactly as the platform sent it: `code`'s own tag for every code
    /// this crate understands, the raw string when `code` is `Unknown`.
    pub raw_code: String,
    /// Human-readable explanation, safe to log — never contains key material.
    pub message: String,
}

impl Error {
    /// An error of a known `code` carrying `message`, as `Error::new` builds it.
    pub open spec fn is(self, code: SignerErrorCode, message: Seq<char>) -> bool {
        &&& self.code == code
        &&& self.raw_code@ == code.wire_tag()
        &&& self.message@ == message
    }

    /// An error of a known `code`, whatever its message.
    pub open spec fn has_code(self, code: SignerErrorCode) -> bool {
        &&& self.code == code
        &&& self.raw_code@ == code.wire_tag()
    }

    /// Build an error from a code this build knows.
    pub fn new(code: SignerErrorCode, message: &str) -> (e: Error)
        ensures
            e.is(code, message@),
    {
        Error { code, raw_code: owned(code.as_wire()), message: owned(message) }
    }

    /// Build from whatever a native side put on the wire, preserving the raw tag.
    ///
    /// An absent tag reads as `"unknown"`.
    pub fn from_wire(wire: Option<&str>, message: &str) -> (e: Error)
        ensures
            ({
                let raw = match wire {
                    Some(w) => w@,
                    None => SignerErrorCode::Unknown.wire_tag(),
                };
                &&& e.code == SignerErrorCode::parse_tag(raw)
                &&& e.raw_code@ == raw
                &&& e.message@ == message@
            }),
    {
        let raw: &str = match wire {
            Some(w) => w,
            None => SignerErrorCode::Unknown.as_wire(),
        };
        Error { code: SignerErrorCode::from_wire(raw), raw_code: owned(raw), message: owned(message) }
    }
}

/// Every error code's wire tag parses back to that code.
pub proof fn lemma_error_code_round_trip(c: SignerErrorCode)
    ensures
        SignerErrorCode::parse_tag(c.wire_tag()) == c,
{
    reveal_strlit("key_not_found");
    reveal_strlit("key_already_exists");
    reveal_strlit("hardware_unavailable");
    reveal_strlit("keystore_failure");
    reveal_strlit("user_authentication_required");
    reveal_strlit("user_authentication_cancelled");
    reveal_strlit("key_invalidated");
    reveal_strlit("unsupported_platform");
    reveal_strlit("unknown");
    assert("key_not_found"@.len() == 13 && "key_not_found"@[0] == 'k' && "key_not_found"@[12] == 'd');
    assert("key_already_exists"@.len() == 18 && "key_already_exists"@[0] == 'k' && "key_already_exists"@[17] == 's');
    assert("hardware_unavailable"@.len() == 20 && "hardware_unavailable"@[0] == 'h' && "hardware_unavailable"@[19] == 'e');
    assert("keystore_failure"@.len() == 16 && "keystore_failure"@[0] == 'k' && "keystore_failure"@[15] == 'e');
    assert("user_authentication_required"@.len() == 28 && "user_authentication_required"@[0] == 'u' && "user_authentication_required"@[27] == 'd');
    assert("user_authentication_cancelled"@.len() == 29 && "user_authentication_cancelled"@[0] == 'u' && "user_authentication_cancelled"@[28] == 'd');
    assert("key_invalidated"@.len() == 15 && "key_invalidated"@[0] == 'k' && "key_invalidated"@[14] == 'd');
    assert("unsupported_platform"@.len() == 20 && "unsupported_platform"@[0] == 'u' && "unsupported_platform"@[19] == 'm');
    assert("unknown"@.len() == 7 && "unknown"@[0] == 'u' && "unknown"@[6] == 'n');
}

/// A code that names no member parses as `Unknown`.
pub proof fn lemma_unknown_error_code(wire: Seq<char>)
    requires
        forall|c: SignerErrorCode| wire != #[trigger] c.wire_tag(),
    ensures
        SignerErrorCode::parse_tag(wire) == SignerErrorCode::Unknown,
{
    assert(wire != SignerErrorCode::KeyNotFound.wire_tag());
    assert(wire != SignerErrorCode::KeyAlreadyExists.wire_tag());
    assert(wire != SignerErrorCode::HardwareUnavailable.wire_tag());
    assert(wire != SignerErrorCode::KeystoreFailure.wire_tag());
    assert(wire != SignerErrorCode::UserAuthenticationRequired.wire_tag());
    assert(wire != SignerErrorCode::UserAuthenticationCancelled.wire_tag());
    assert(wire != SignerErrorCode::KeyInvalidated.wire_tag());
    assert(wire != SignerErrorCode::UnsupportedPlatform.wire_tag());
}

} // verus!
