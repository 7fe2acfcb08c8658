//! The mobile path's own logic: turning a rejected native invoke back into a
//! typed [`Error`] with its code intact.
//!
//! A native side that reports `user_authentication_cancelled` and a Rust side
//! that flattened every failure into one string would leave the frontend unable
//! to tell a customer changing their mind from a key destroyed by a biometric
//! re-enrolment. The invoke itself is the caller's.

use vstd::prelude::*;

use crate::error::{Error, SignerErrorCode};
use crate::text::{framed, joined, joined3, quoted};

verus! {

/// The Android plugin's package identifier.
pub const PLUGIN_IDENTIFIER: &'static str = "app.vaam.signkeypair";

/// The error for a native rejection of `command`: the code is read off the
/// rejection rather than parsed out of the message, and an unrecognised one is
/// preserved on `raw_code`. A rejection without a message says which command
/// was rejected.
pub fn rejection_error(command: &str, code: Option<&str>, message: Option<&str>) -> (e: Error)
    ensures
        ({
            let raw = match code {
                Some(c) => c@,
                None => SignerErrorCode::Unknown.wire_tag(),
            };
            &&& e.code == SignerErrorCode::parse_tag(raw)
            &&& e.raw_code@ == raw
            &&& e.message@ == match message {
                Some(m) => m@,
                None => quoted("The native plugin rejected "@, command@, ""@),
            }
        }),
{
    match message {
        Some(m) => Error::from_wire(code, m),
        None => {
            let text = framed("The native plugin rejected ", command, "");
            Error::from_wire(code, text.as_str())
        },
    }
}

/// The error for an invoke of `command` that failed other than by rejection.
pub fn invoke_failure(command: &str, detail: &str) -> (e: Error)
    ensures
        e.is(
            SignerErrorCode::KeystoreFailure,
            quoted("The native plugin failed on "@, command@, ": "@) + detail@,
        ),
{
    let head = framed("The native plugin failed on ", command, ": ");
    let message = joined(head.as_str(), detail);
    Error::new(SignerErrorCode::KeystoreFailure, message.as_str())
}

/// The error for a native plugin that could not be registered.
pub fn registration_error(platform: &str, detail: &str) -> (e: Error)
    ensures
        e.is(
            SignerErrorCode::KeystoreFailure,
            "Could not register the "@ + platform@ + " plugin: "@ + detail@,
        ),
{
    let head = joined3("Could not register the ", platform, " plugin: ");
    let message = joined(head.as_str(), detail);
    Error::new(SignerErrorCode::KeystoreFailure, message.as_str())
}

} // verus!
