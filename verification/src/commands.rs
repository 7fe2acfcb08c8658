//! The IPC argument rules.
//!
//! Thin on purpose: argument defaults and the one wire → enum boundary for the
//! protection tag on this side. The commands themselves run on the caller's
//! async runtime and hand the signer plain values.

use vstd::prelude::*;

use crate::error::{Error, SignerErrorCode};
use crate::models::KeyProtection;
use crate::text::{framed, quoted};

verus! {

/// The one wire → enum boundary for the protection tag on this side.
///
/// An absent tag means [`KeyProtection::Ambient`], the documented default of the
/// `generateKey` API. An unrecognised tag is a hard failure with no default:
/// the policy is baked into the key permanently at creation, so a mismatched
/// pairing fails at the call instead.
pub fn parse_protection(raw: Option<&str>) -> (r: Result<KeyProtection, Error>)
    ensures
        match raw {
            None => r == Ok::<KeyProtection, Error>(KeyProtection::Ambient),
            Some(value) => match KeyProtection::parse_tag(value@) {
                Some(p) => r == Ok::<KeyProtection, Error>(p),
                None => r is Err && r->Err_0.is(
                    SignerErrorCode::KeystoreFailure,
                    quoted("Unknown key protection "@, value@, ""@),
                ),
            },
        },
{
    match raw {
        None => Ok(KeyProtection::Ambient),
        Some(value) => match KeyProtection::from_wire(value) {
            Some(p) => Ok(p),
            None => {
                let message = framed("Unknown key protection ", value, "");
                Err(Error::new(SignerErrorCode::KeystoreFailure, message.as_str()))
            },
        },
    }
}

/// The `generate_key` command's options once its defaults are applied.
#[derive(Debug, Clone, Copy, PartialEq, Eq, Structural)]
pub struct GenerateKeyOptions {
    /// Refuse rather than issue a key no secure element holds.
    pub require_hardware: bool,
    /// Replace a key already stored under the id.
    pub overwrite: bool,
    /// What the secure element demands before signing.
    pub protection: KeyProtection,
}

/// Apply the `generate_key` command's defaults: an absent flag is `false`, an
/// absent protection is ambient, and an unrecognised protection is refused.
pub fn generate_key_options(
    require_hardware: Option<bool>,
    overwrite: Option<bool>,
    protection: Option<&str>,
) -> (r: Result<GenerateKeyOptions, Error>)
    ensures
        match protection {
            Some(value) if KeyProtection::parse_tag(value@) is None => r is Err && r->Err_0.is(
                SignerErrorCode::KeystoreFailure,
                quoted("Unknown key protection "@, value@, ""@),
            ),
            _ => r matches Ok(o) && o.require_hardware == (require_hardware == Some(true))
                && o.overwrite == (overwrite == Some(true)) && o.protection == match protection {
                None => KeyProtection::Ambient,
                Some(value) => KeyProtection::parse_tag(value@).unwrap(),
            },
        },
{
    let protection = parse_protection(protection)?;
    let require_hardware = match require_hardware {
        Some(flag) => flag,
        None => false,
    };
    let overwrite = match overwrite {
        Some(flag) => flag,
        None => false,
    };
    Ok(GenerateKeyOptions { require_hardware, overwrite, protection })
}

} // verus!
