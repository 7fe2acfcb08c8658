//! The wire vocabulary, shared with Kotlin, Swift and TypeScript.
//!
//! The IPC can only carry JSON, so these cross as strings — but each string is
//! written in exactly one place (`wire_tag`) and parsed in exactly one place
//! (`from_wire`). Every comparison elsewhere is on the enum.

use vstd::prelude::*;

use crate::text::{owned, same_text};

verus! {

/// Where the private key actually lives, in decreasing order of assurance.
///
/// Reported by the platform, never assumed by the caller. [`KeyBacking::Software`]
/// is the floor, and the one value that means the raw private scalar is
/// reachable from process memory.
#[derive(Debug, Clone, Copy, PartialEq, Eq, Structural)]
pub enum KeyBacking {
    /// Android StrongBox — a discrete, tamper-resistant security chip.
    StrongBox,
    /// Apple Secure Enclave — a separate coprocessor.
    SecureEnclave,
    /// Android Trusted Execution Environment (also reported for a TPM).
    TrustedExecutionEnvironment,
    /// Apple Keychain item that the Secure Enclave does not hold.
    Keychain,
    /// In-process key; the private scalar is extractable.
    Software,
}

impl KeyBacking {
    /// The tag this backing crosses the wire as.
    pub open spec fn wire_tag(self) -> Seq<char> {
        match self {
            KeyBacking::StrongBox => "strongbox"@,
            KeyBacking::SecureEnclave => "secure_enclave"@,
            KeyBacking::TrustedExecutionEnvironment => "tee"@,
            KeyBacking::Keychain => "keychain"@,
            KeyBacking::Software => "software"@,
        }
    }

    /// The backing a wire tag names; any tag not named above is `Software`.
    pub open spec fn parse_tag(wire: Seq<char>) -> KeyBacking {
        if wire == "strongbox"@ {
            KeyBacking::StrongBox
        } else if wire == "secure_enclave"@ {
            KeyBacking::SecureEnclave
        } else if wire == "tee"@ {
            KeyBacking::TrustedExecutionEnvironment
        } else if wire == "keychain"@ {
            KeyBacking::Keychain
        } else {
            KeyBacking::Software
        }
    }

    /// Held by a secure element: StrongBox, Secure Enclave or TEE.
    pub open spec fn hardware(self) -> bool {
        match self {
            KeyBacking::StrongBox | KeyBacking::SecureEnclave
            | KeyBacking::TrustedExecutionEnvironment => true,
            KeyBacking::Keychain | KeyBacking::Software => false,
        }
    }

    /// Map a wire tag onto a backing level.
    ///
    /// An unrecognised tag becomes [`KeyBacking::Software`]: under-reporting
    /// strength is safe, over-reporting is a false security claim.
    pub fn from_wire(wire: &str) -> (b: KeyBacking)
        ensures
            b == KeyBacking::parse_tag(wire@),
    {
        if same_text(wire, "strongbox") {
            KeyBacking::StrongBox
        } else if same_text(wire, "secure_enclave") {
            KeyBacking::SecureEnclave
        } else if same_text(wire, "tee") {
            KeyBacking::TrustedExecutionEnvironment
        } else if same_text(wire, "keychain") {
            KeyBacking::Keychain
        } else {
            KeyBacking::Software
        }
    }

    /// The tag this backing crosses the wire as.
    pub fn as_wire(self) -> (w: &'static str)
        ensures
            w@ == self.wire_tag(),
    {
        match self {
            KeyBacking::StrongBox => "strongbox",
            KeyBacking::SecureEnclave => "secure_enclave",
            KeyBacking::TrustedExecutionEnvironment => "tee",
            KeyBacking::Keychain => "keychain",
            KeyBacking::Software => "software",
        }
    }

    /// True when the private key cannot be read out of the device.
    ///
    /// [`KeyBacking::Keychain`] is deliberately excluded: a keychain item is
    /// protected by the OS, but it is not held by a secure element.
    pub fn is_hardware_backed(self) -> (r: bool)
        ensures
            r == self.hardware(),
    {
        match self {
            KeyBacking::StrongBox | KeyBacking::SecureEnclave
            | KeyBacking::TrustedExecutionEnvironment => true,
            KeyBacking::Keychain | KeyBacking::Software => false,
        }
    }
}

/// What the secure element demands before it will sign with a key.
#[derive(Debug, Clone, Copy, PartialEq, Eq, Structural)]
pub enum KeyProtection {
    /// No user-presence binding. Never prompts. The key on the hot path.
    Ambient,
    /// Bound to a live biometric or the device credential. Prompts on every use.
    UserPresent,
}

impl KeyProtection {
    /// The tag this protection crosses the wire as.
    pub open spec fn wire_tag(self) -> Seq<char> {
        match self {
            KeyProtection::Ambient => "ambient"@,
            KeyProtection::UserPresent => "user_present"@,
        }
    }

    /// The protection a wire tag names, or `None` for any other tag.
    pub open spec fn parse_tag(wire: Seq<char>) -> Option<KeyProtection> {
        if wire == "ambient"@ {
            Some(KeyProtection::Ambient)
        } else if wire == "user_present"@ {
            Some(KeyProtection::UserPresent)
        } else {
            None
        }
    }

    /// Whether the secure element demands authentication before signing.
    pub open spec fn prompts(self) -> bool {
        self == KeyProtection::UserPresent
    }

    /// Parse a wire tag, or `None` when it is not one this build knows.
    ///
    /// No default, unlike [`KeyBacking::from_wire`]: guessing either way would
    /// bake the wrong policy into a key permanently.
    pub fn from_wire(wire: &str) -> (p: Option<KeyProtection>)
        ensures
            p == KeyProtection::parse_tag(wire@),
    {
        if same_text(wire, "ambient") {
            Some(KeyProtection::Ambient)
        } else if same_text(wire, "user_present") {
            Some(KeyProtection::UserPresent)
        } else {
            None
        }
    }

    /// The tag this protection crosses the wire as.
    pub fn as_wire(self) -> (w: &'static str)
        ensures
            w@ == self.wire_tag(),
    {
        match self {
            KeyProtection::Ambient => "ambient",
            KeyProtection::UserPresent => "user_present",
        }
    }

    /// Whether the secure element will demand authentication before signing.
    pub fn requires_user_presence(self) -> (r: bool)
        ensures
            r == self.prompts(),
    {
        match self {
            KeyProtection::Ambient => false,
            KeyProtection::UserPresent => true,
        }
    }
}

impl Default for KeyProtection {
    /// The documented default of the `generateKey` API: the ambient key.
    fn default() -> (p: KeyProtection)
        ensures
            p == KeyProtection::Ambient,
    {
        KeyProtection::Ambient
    }
}

/// An EC P-256 public key in JWK form (RFC 7517 / RFC 7518 §6.2).
///
/// `x` and `y` are base64url-encoded without padding. Field order matches
/// RFC 7638's canonical form.
#[derive(Debug, Clone, PartialEq, Eq)]
pub struct EcPublicJwk {
    /// Always `"P-256"`.
    pub crv: String,
    /// Always `"EC"`.
    pub kty: String,
    /// base64url, unpadded, X coordinate.
    pub x: String,
    /// base64url, unpadded, Y coordinate.
    pub y: String,
}

impl EcPublicJwk {
    /// A P-256 JWK whose coordinates are the given base64url strings.
    pub open spec fn is_p256(self, x: Seq<char>, y: Seq<char>) -> bool {
        &&& self.crv@ == "P-256"@
        &&& self.kty@ == "EC"@
        &&& self.x@ == x
        &&& self.y@ == y
    }

    /// Build a JWK from base64url coordinate strings as a native side reports them.
    pub fn new(x: String, y: String) -> (jwk: EcPublicJwk)
        ensures
            jwk.is_p256(x@, y@),
    {
        EcPublicJwk { crv: owned("P-256"), kty: owned("EC"), x, y }
    }
}

/// A handle to a key held by the platform. Carries no private key material.
#[derive(Debug, Clone, PartialEq, Eq)]
pub struct SecureKey {
    /// Stable identifier used to address this key on later `sign`/`delete` calls.
    pub key_id: String,
    /// The public half, ready to send to a backend for device registration.
    pub public_key: EcPublicJwk,
    /// Where the private half actually lives, as reported by the platform.
    pub backing: KeyBacking,
    /// Mirror of [`KeyBacking::is_hardware_backed`] for the wire.
    pub hardware_backed: bool,
}

impl SecureKey {
    /// Assemble a handle from the pieces a platform reports.
    pub fn new(key_id: &str, jwk: EcPublicJwk, backing: KeyBacking) -> (k: SecureKey)
        ensures
            k.key_id@ == key_id@,
            k.public_key == jwk,
            k.backing == backing,
            k.hardware_backed == backing.hardware(),
    {
        SecureKey {
            key_id: owned(key_id),
            public_key: jwk,
            backing,
            hardware_backed: backing.is_hardware_backed(),
        }
    }
}

/// What the current platform can actually do, probed at runtime.
#[derive(Debug, Clone, PartialEq, Eq)]
pub struct SignerCapabilities {
    /// Human-readable platform tag: `android`, `ios`, `rust-software`, `web`, ...
    pub platform: String,
    /// The strongest [`KeyBacking`] a `generate_key` call would produce now.
    pub best_available_backing: KeyBacking,
    /// Whether a key generated now would be non-extractable.
    pub hardware_backed: bool,
}

impl SignerCapabilities {
    /// Assemble capabilities, deriving `hardware_backed` rather than taking it.
    pub fn new(platform: &str, backing: KeyBacking) -> (c: SignerCapabilities)
        ensures
            c.platform@ == platform@,
            c.best_available_backing == backing,
            c.hardware_backed == backing.hardware(),
    {
        SignerCapabilities {
            platform: owned(platform),
            best_available_backing: backing,
            hardware_backed: backing.is_hardware_backed(),
        }
    }
}

/// Every backing's wire tag parses back to that backing.
pub proof fn lemma_backing_round_trip(b: KeyBacking)
    ensures
        KeyBacking::parse_tag(b.wire_tag()) == b,
{
    reveal_strlit("strongbox");
    reveal_strlit("secure_enclave");
    reveal_strlit("tee");
    reveal_strlit("keychain");
    reveal_strlit("software");
    assert("strongbox"@.len() == 9 && "strongbox"@[0] == 's' && "strongbox"@[8] == 'x');
    assert("secure_enclave"@.len() == 14 && "secure_enclave"@[0] == 's' && "secure_enclave"@[13] == 'e');
    assert("tee"@.len() == 3 && "tee"@[0] == 't' && "tee"@[2] == 'e');
    assert("keychain"@.len() == 8 && "keychain"@[0] == 'k' && "keychain"@[7] == 'n');
    assert("software"@.len() == 8 && "software"@[0] == 's' && "software"@[7] == 'e');
}

/// A tag that names no backing parses as `Software`, which is not hardware.
pub proof fn lemma_unknown_backing_is_software(wire: Seq<char>)
    requires
        forall|b: KeyBacking| wire != #[trigger] b.wire_tag(),
    ensures
        KeyBacking::parse_tag(wire) == KeyBacking::Software,
        !KeyBacking::parse_tag(wire).hardware(),
{
    assert(wire != KeyBacking::StrongBox.wire_tag());
    assert(wire != KeyBacking::SecureEnclave.wire_tag());
    assert(wire != KeyBacking::TrustedExecutionEnvironment.wire_tag());
    assert(wire != KeyBacking::Keychain.wire_tag());
}

/// Parsing never over-reports: a tag parses to a hardware backing only when it
/// is exactly that backing's own tag.
pub proof fn lemma_hardware_only_from_its_own_tag(wire: Seq<char>)
    ensures
        KeyBacking::parse_tag(wire).hardware() ==> wire == KeyBacking::parse_tag(wire).wire_tag(),
{
}

/// Every protection's wire tag parses back to that protection.
pub proof fn lemma_protection_round_trip(p: KeyProtection)
    ensures
        KeyProtection::parse_tag(p.wire_tag()) == Some(p),
{
    reveal_strlit("ambient");
    reveal_strlit("user_present");
    assert("ambient"@.len() == 7 && "ambient"@[0] == 'a' && "ambient"@[6] == 't');
    assert("user_present"@.len() == 12 && "user_present"@[0] == 'u' && "user_present"@[11] == 't');
}

/// A protection tag parses only when it is exactly a protection's own tag: an
/// unrecognised tag has no default.
pub proof fn lemma_protection_parse_is_exact(wire: Seq<char>)
    ensures
        KeyProtection::parse_tag(wire) matches Some(p) ==> wire == p.wire_tag(),
        (forall|p: KeyProtection| wire != #[trigger] p.wire_tag()) ==> KeyProtection::parse_tag(
            wire,
        ) is None,
{
    if forall|p: KeyProtection| wire != #[trigger] p.wire_tag() {
        assert(wire != KeyProtection::Ambient.wire_tag());
        assert(wire != KeyProtection::UserPresent.wire_tag());
    }
}

} // verus!
