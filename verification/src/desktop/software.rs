//! The software fallback. The fallback, and only the fallback.
//!
//! The private scalar lives in process memory while the key is in use and in
//! one file per key between runs, so it is extractable by anything that can
//! read either — which is exactly why every key this signer produces reports
//! [`KeyBacking::Software`] and `hardware_backed: false`.
//!
//! Two behaviours are refusals rather than degradations: `require_hardware`
//! fails outright (there is no hardware here to require), and
//! [`KeyProtection::UserPresent`] fails outright (there is no secure element to
//! withhold a signature and no prompt to raise).
//!
//! The store itself is files, which the caller reads, writes and removes; what
//! stands here is every decision around those operations, the key generation
//! and the signing. Signing uses RFC 6979 deterministic `k`.

use vstd::prelude::*;

use std::path::PathBuf;

use crate::b64::{
    base64url_bytes, base64url_text, decode, decoded, encode, is_base64url_char,
    without_trailing_pads,
};
use crate::crypto::{
    p256_public_point, p256_scalar_accepted, p256_signature, public_point, random_bytes,
    sign_message, SigningFailure,
};
use crate::desktop::{joined_path, path_join, point_coordinates, split_uncompressed_point};
use crate::error::{Error, SignerErrorCode};
use crate::jws::all_base64url;
use crate::models::{EcPublicJwk, KeyBacking, KeyProtection, SecureKey, SignerCapabilities};
use crate::text::{framed, joined, joined3, quoted};
use vstd::string::StringSliceAdditionalSpecFns;

verus! {

/// One stored key. Only ever holds a software scalar.
#[derive(Debug, Clone)]
pub struct KeyRecord {
    /// base64url of the 32-byte private scalar.
    pub d: String,
    /// base64url of the 32-byte affine X coordinate.
    pub x: String,
    /// base64url of the 32-byte affine Y coordinate.
    pub y: String,
}

/// `record` holds the scalar `scalar` and the coordinates of its public point,
/// each base64url-encoded.
pub open spec fn record_of_scalar(record: KeyRecord, scalar: Seq<u8>) -> bool {
    &&& p256_scalar_accepted(scalar)
    &&& record.d@ == base64url_text(scalar)
    &&& all_base64url(record.d@)
    &&& point_coordinates(p256_public_point(scalar)) matches Some((x, y)) && record.x@
        == base64url_text(x) && record.y@ == base64url_text(y)
}

/// `key` is the handle that describes `record` under `key_id`: its coordinates,
/// software backing, not hardware-backed.
pub open spec fn describes(key: SecureKey, key_id: Seq<char>, record: KeyRecord) -> bool {
    &&& key.key_id@ == key_id
    &&& key.public_key.is_p256(record.x@, record.y@)
    &&& key.backing == KeyBacking::Software
    &&& !key.hardware_backed
}

/// What reading one key's file gave.
pub enum StoredRead {
    /// The file held this record.
    Found(KeyRecord),
    /// There is no file for this key.
    Missing,
    /// The file exists but does not hold a record; the parser's explanation.
    Unreadable(String),
    /// The file could not be read; the I/O error's explanation.
    Failed(String),
}

/// What removing one key's file gave.
pub enum Removal {
    /// The file was removed.
    Removed,
    /// There was no file to remove.
    Missing,
    /// The file could not be removed; the I/O error's explanation.
    Failed(String),
}

/// Which step of writing one key's file failed, and why.
pub enum WriteFailure {
    /// Creating the store directory (its display form, the explanation).
    CreateDirectory(String, String),
    /// Serializing the record (the explanation).
    Serialize(String),
    /// Writing the file (its display form, the explanation).
    Write(String, String),
}

/// The message for refusing `require_hardware`.
pub open spec fn no_hardware_message() -> Seq<char> {
    "The software fallback signer cannot produce a hardware-backed key"@
}

/// The message for refusing a user-present key.
pub open spec fn no_presence_message() -> Seq<char> {
    "The software fallback signer cannot enforce user presence — user-present operations require a device with a secure element"@
}

/// A file-backed P-256 signer: one file per key, and no in-memory cache, so a
/// write touches only the key it is about.
pub struct SoftwareBackend {
    directory: PathBuf,
}

impl SoftwareBackend {
    /// The directory the key files live in.
    pub closed spec fn directory(&self) -> PathBuf {
        self.directory
    }

    /// A signer storing its keys under `directory`.
    pub fn new(directory: PathBuf) -> (b: SoftwareBackend)
        ensures
            b.directory() == directory,
    {
        SoftwareBackend { directory }
    }

    /// The directory the key files live in.
    pub fn store_directory(&self) -> (d: &PathBuf)
        ensures
            *d == self.directory(),
    {
        &self.directory
    }

    /// What this platform can do: software, and it says so.
    pub fn capabilities(&self) -> (c: SignerCapabilities)
        ensures
            c.platform@ == "rust-software"@,
            c.best_available_backing == KeyBacking::Software,
            !c.hardware_backed,
    {
        SignerCapabilities::new("rust-software", KeyBacking::Software)
    }

    /// The file name of one key's record: the base64url of the key id, not the
    /// id itself, so an id containing `/` or `..` cannot name a path outside the
    /// store.
    pub fn record_file_name(key_id: &str) -> (name: String)
        requires
            key_id.spec_bytes().len() <= isize::MAX,
        ensures
            name@ == base64url_text(key_id.spec_bytes()) + ".json"@,
            all_base64url(base64url_text(key_id.spec_bytes())),
    {
        let encoded = encode(key_id.as_bytes());
        joined(encoded.as_str(), ".json")
    }

    /// Where one key's record lives.
    pub fn path_for(&self, key_id: &str) -> (path: PathBuf)
        requires
            key_id.spec_bytes().len() <= isize::MAX,
        ensures
            path == joined_path(self.directory(), base64url_text(key_id.spec_bytes()) + ".json"@),
    {
        let name = SoftwareBackend::record_file_name(key_id);
        path_join(&self.directory, name.as_str())
    }

    /// Interpret a read of one key's file: a missing file is no key, anything
    /// else that went wrong is a keystore failure.
    pub fn interpret_read(key_id: &str, read: StoredRead) -> (r: Result<Option<KeyRecord>, Error>)
        ensures
            match read {
                StoredRead::Found(record) => r == Ok::<Option<KeyRecord>, Error>(Some(record)),
                StoredRead::Missing => r == Ok::<Option<KeyRecord>, Error>(None),
                StoredRead::Unreadable(why) => r is Err && r->Err_0.is(
                    SignerErrorCode::KeystoreFailure,
                    quoted("The stored record for "@, key_id@, " is unreadable: "@) + why@,
                ),
                StoredRead::Failed(why) => r is Err && r->Err_0.is(
                    SignerErrorCode::KeystoreFailure,
                    quoted("Could not read the key under "@, key_id@, ": "@) + why@,
                ),
            },
    {
        match read {
            StoredRead::Found(record) => Ok(Some(record)),
            StoredRead::Missing => Ok(None),
            StoredRead::Unreadable(why) => {
                let head = framed("The stored record for ", key_id, " is unreadable: ");
                let message = joined(head.as_str(), why.as_str());
                Err(Error::new(SignerErrorCode::KeystoreFailure, message.as_str()))
            },
            StoredRead::Failed(why) => {
                let head = framed("Could not read the key under ", key_id, ": ");
                let message = joined(head.as_str(), why.as_str());
                Err(Error::new(SignerErrorCode::KeystoreFailure, message.as_str()))
            },
        }
    }

    /// Interpret a failed write of one key's file.
    pub fn write_error(key_id: &str, failure: WriteFailure) -> (e: Error)
        ensures
            match failure {
                WriteFailure::CreateDirectory(dir, why) => e.is(
                    SignerErrorCode::KeystoreFailure,
                    "Could not create "@ + dir@ + ": "@ + why@,
                ),
                WriteFailure::Serialize(why) => e.is(
                    SignerErrorCode::KeystoreFailure,
                    quoted("Could not serialize the key under "@, key_id@, ": "@) + why@,
                ),
                WriteFailure::Write(path, why) => e.is(
                    SignerErrorCode::KeystoreFailure,
                    "Could not write "@ + path@ + ": "@ + why@,
                ),
            },
    {
        let message = match failure {
            WriteFailure::CreateDirectory(dir, why) => joined(
                joined3("Could not create ", dir.as_str(), ": ").as_str(),
                why.as_str(),
            ),
            WriteFailure::Serialize(why) => {
                let head = framed("Could not serialize the key under ", key_id, ": ");
                joined(head.as_str(), why.as_str())
            },
            WriteFailure::Write(path, why) => joined(
                joined3("Could not write ", path.as_str(), ": ").as_str(),
                why.as_str(),
            ),
        };
        Error::new(SignerErrorCode::KeystoreFailure, message.as_str())
    }

    /// Interpret a removal of one key's file: removing a key that does not
    /// exist is a no-op.
    pub fn interpret_removal(key_id: &str, removal: Removal) -> (r: Result<(), Error>)
        ensures
            match removal {
                Removal::Removed => r is Ok,
                Removal::Missing => r is Ok,
                Removal::Failed(why) => r is Err && r->Err_0.is(
                    SignerErrorCode::KeystoreFailure,
                    quoted("Could not delete the key under "@, key_id@, ": "@) + why@,
                ),
            },
    {
        match removal {
            Removal::Removed => Ok(()),
            Removal::Missing => Ok(()),
            Removal::Failed(why) => {
                let head = framed("Could not delete the key under ", key_id, ": ");
                let message = joined(head.as_str(), why.as_str());
                Err(Error::new(SignerErrorCode::KeystoreFailure, message.as_str()))
            },
        }
    }

    /// The record for the secret scalar `scalar`, or `None` when `p256` does not
    /// accept it as a P-256 scalar.
    pub fn record_for_scalar(scalar: &[u8]) -> (r: Option<KeyRecord>)
        requires
            scalar@.len() == 32,
        ensures
            r is Some <==> p256_scalar_accepted(scalar@),
            r matches Some(record) ==> record_of_scalar(record, scalar@),
    {
        let point = match public_point(scalar) {
            Ok(point) => point,
            Err(_) => return None,
        };
        let (x, y) = match split_uncompressed_point(point.as_slice()) {
            Some(coordinates) => coordinates,
            None => return None,
        };
        let record = KeyRecord { d: encode(scalar), x: encode(x.as_slice()), y: encode(y.as_slice()) };
        Some(record)
    }

    /// Create a P-256 keypair under `key_id`, given what is stored there now.
    ///
    /// Returns the record to store and the handle to report. Refusals come
    /// first and leave nothing to store: `require_hardware`, then a
    /// user-present protection; then, only when not overwriting, a failed read
    /// or an existing key. With `overwrite` the stored record is never
    /// consulted, so overwriting recovers from a corrupt key file. The scalar
    /// is drawn from the operating system by rejection sampling, as `p256`'s
    /// own `SigningKey::random` does: 32 random bytes at a time until `p256`
    /// accepts them. A uniform draw is refused with probability below 2^-32;
    /// the count of draws only gives the loop an end, at `u64::MAX` of them. A
    /// generator that cannot answer is a keystore failure, not a panic.
    pub fn generate_key(
        &self,
        key_id: &str,
        require_hardware: bool,
        overwrite: bool,
        protection: KeyProtection,
        stored: Result<Option<KeyRecord>, Error>,
    ) -> (r: Result<(KeyRecord, SecureKey), Error>)
        ensures
            require_hardware ==> r is Err && r->Err_0.is(
                SignerErrorCode::HardwareUnavailable,
                no_hardware_message(),
            ),
            !require_hardware && protection.prompts() ==> r is Err && r->Err_0.is(
                SignerErrorCode::HardwareUnavailable,
                no_presence_message(),
            ),
            !require_hardware && !protection.prompts() && !overwrite && stored is Err ==> r
                == Err::<(KeyRecord, SecureKey), Error>(stored->Err_0),
            !require_hardware && !protection.prompts() && !overwrite && stored is Ok
                && stored->Ok_0 is Some ==> r is Err && r->Err_0.is(
                SignerErrorCode::KeyAlreadyExists,
                quoted("A software key already exists under "@, key_id@, ""@),
            ),
            !require_hardware && !protection.prompts() && (overwrite || (stored is Ok
                && stored->Ok_0 is None)) ==> {
                &&& r is Ok ==> describes(r->Ok_0.1, key_id@, r->Ok_0.0) && exists|
                    scalar: Seq<u8>,
                | record_of_scalar(r->Ok_0.0, scalar)
                &&& r is Err ==> r->Err_0.has_code(SignerErrorCode::KeystoreFailure)
            },
            generation_answer(key_id@, require_hardware, overwrite, protection, stored, r),
    {
        if require_hardware {
            return Err(
                Error::new(
                    SignerErrorCode::HardwareUnavailable,
                    "The software fallback signer cannot produce a hardware-backed key",
                ),
            );
        }
        if protection.requires_user_presence() {
            return Err(
                Error::new(
                    SignerErrorCode::HardwareUnavailable,
                    "The software fallback signer cannot enforce user presence — user-present operations require a device with a secure element",
                ),
            );
        }
        if !overwrite {
            let existing = stored?;
            if existing.is_some() {
                let message = framed("A software key already exists under ", key_id, "");
                return Err(Error::new(SignerErrorCode::KeyAlreadyExists, message.as_str()));
            }
        }

        let mut draws: u64 = 0;
        while draws < u64::MAX
            invariant
                !require_hardware,
                !protection.prompts(),
                overwrite || (stored is Ok && stored->Ok_0 is None),
            decreases u64::MAX - draws,
        {
            let scalar = match random_bytes() {
                Ok(bytes) => bytes,
                Err(e) => {
                    let message = joined(
                        "The operating system could not provide randomness: ",
                        e.as_str(),
                    );
                    proof {
                        assert(message@ == no_randomness_message() + e@);
                    }
                    return Err(Error::new(SignerErrorCode::KeystoreFailure, message.as_str()));
                },
            };
            if let Some(record) = SoftwareBackend::record_for_scalar(scalar.as_slice()) {
                let key = describe(key_id, &record);
                return Ok((record, key));
            }
            draws = draws + 1;
        }
        Err(
            Error::new(
                SignerErrorCode::KeystoreFailure,
                "No valid P-256 scalar was drawn from the operating system's generator",
            ),
        )
    }

    /// The handle for what is stored under `key_id`, or `None` when nothing is.
    pub fn get_key(key_id: &str, stored: Option<KeyRecord>) -> (k: Option<SecureKey>)
        ensures
            match stored {
                Some(record) => k matches Some(key) && describes(key, key_id@, record),
                None => k is None,
            },
    {
        match stored {
            Some(record) => Some(describe(key_id, &record)),
            None => None,
        }
    }

    /// Sign `payload` with the key stored under `key_id`.
    ///
    /// `reason` is accepted and ignored: this signer never holds a user-present
    /// key, so there is no prompt to caption.
    pub fn sign(
        &self,
        key_id: &str,
        stored: Option<KeyRecord>,
        payload: &[u8],
        reason: Option<&str>,
    ) -> (r: Result<Vec<u8>, Error>)
        ensures
            software_signature(key_id@, stored, payload@, r),
    {
        let record = match stored {
            Some(record) => record,
            None => {
                let message = framed("No key stored under ", key_id, "");
                return Err(Error::new(SignerErrorCode::KeyNotFound, message.as_str()));
            },
        };
        let scalar = decode(record.d.as_str())?;
        match sign_message(scalar.as_slice(), payload) {
            Ok(signature) => Ok(signature),
            Err(SigningFailure::Scalar(why)) => {
                let head = framed("The stored key under ", key_id, " is not a valid P-256 scalar: ");
                let message = joined(head.as_str(), why.as_str());
                proof {
                    assert(message@ == invalid_scalar_message(key_id@) + why@);
                }
                Err(Error::new(SignerErrorCode::KeystoreFailure, message.as_str()))
            },
            Err(SigningFailure::Signing(why)) => {
                let head = framed("Signing with the stored key under ", key_id, " failed: ");
                let message = joined(head.as_str(), why.as_str());
                proof {
                    assert(message@ == signing_failed_message(key_id@) + why@);
                }
                Err(Error::new(SignerErrorCode::KeystoreFailure, message.as_str()))
            },
        }
    }
}

/// The start of the message for an operating-system generator that cannot
/// answer; its explanation follows.
pub open spec fn no_randomness_message() -> Seq<char> {
    "The operating system could not provide randomness: "@
}

/// The message for a generator that never gave a scalar `p256` accepts.
pub open spec fn no_scalar_message() -> Seq<char> {
    "No valid P-256 scalar was drawn from the operating system's generator"@
}

/// `e` reports that the operating system's generator failed, or never gave a
/// scalar `p256` accepts.
pub open spec fn randomness_failure(e: Error) -> bool {
    &&& e.has_code(SignerErrorCode::KeystoreFailure)
    &&& (exists|why: Seq<char>| e.message@ == no_randomness_message() + why) || e.message@
        == no_scalar_message()
}

/// What `generate_key` answers: the refusals in their order (hardware, user
/// presence, then — only when not overwriting — a failed read or an existing
/// key), and otherwise a new key described under `key_id`, or a failure of the
/// generator and nothing else.
pub open spec fn generation_answer(
    key_id: Seq<char>,
    require_hardware: bool,
    overwrite: bool,
    protection: KeyProtection,
    stored: Result<Option<KeyRecord>, Error>,
    r: Result<(KeyRecord, SecureKey), Error>,
) -> bool {
    if require_hardware {
        r is Err && r->Err_0.is(SignerErrorCode::HardwareUnavailable, no_hardware_message())
    } else if protection.prompts() {
        r is Err && r->Err_0.is(SignerErrorCode::HardwareUnavailable, no_presence_message())
    } else if !overwrite && stored is Err {
        r == Err::<(KeyRecord, SecureKey), Error>(stored->Err_0)
    } else if !overwrite && stored->Ok_0 is Some {
        r is Err && r->Err_0.is(
            SignerErrorCode::KeyAlreadyExists,
            quoted("A software key already exists under "@, key_id, ""@),
        )
    } else {
        match r {
            Ok((record, key)) => describes(key, key_id, record) && exists|scalar: Seq<u8>|
                record_of_scalar(record, scalar),
            Err(e) => randomness_failure(e),
        }
    }
}

/// Where nothing is stored under the id, `overwrite` changes nothing: with or
/// without it, `generate_key` owes the same answers. It matters only when a
/// key (or an unreadable record) is already there.
pub proof fn lemma_overwrite_matters_only_for_a_stored_key(
    key_id: Seq<char>,
    require_hardware: bool,
    protection: KeyProtection,
    stored: Result<Option<KeyRecord>, Error>,
    r: Result<(KeyRecord, SecureKey), Error>,
)
    requires
        stored == Ok::<Option<KeyRecord>, Error>(None),
    ensures
        generation_answer(key_id, require_hardware, true, protection, stored, r)
            == generation_answer(key_id, require_hardware, false, protection, stored, r),
{
}

/// A request that is not refused, and either overwrites or finds nothing
/// stored, creates a key: the answer is a software, non-hardware key under
/// exactly `key_id` whose JWK is the stored record's public point, for a scalar
/// `p256` accepts. The one error left is a keystore failure of the operating
/// system's generator.
pub proof fn lemma_unrefused_generation_creates_a_key(
    key_id: Seq<char>,
    overwrite: bool,
    protection: KeyProtection,
    stored: Result<Option<KeyRecord>, Error>,
    r: Result<(KeyRecord, SecureKey), Error>,
)
    requires
        generation_answer(key_id, false, overwrite, protection, stored, r),
        !protection.prompts(),
        overwrite || stored == Ok::<Option<KeyRecord>, Error>(None),
    ensures
        r matches Ok((record, key)) ==> {
            &&& key.key_id@ == key_id
            &&& key.backing == KeyBacking::Software
            &&& !key.hardware_backed
            &&& key.public_key.is_p256(record.x@, record.y@)
            &&& exists|scalar: Seq<u8>|
                p256_scalar_accepted(scalar) && record.d@ == base64url_text(scalar) && (
                point_coordinates(p256_public_point(scalar)) matches Some((x, y)) && record.x@
                    == base64url_text(x) && record.y@ == base64url_text(y))
        },
        r matches Err(e) ==> {
            &&& e.code == SignerErrorCode::KeystoreFailure
            &&& (exists|why: Seq<char>|
                e.message@ == "The operating system could not provide randomness: "@ + why)
                || e.message@ == "No valid P-256 scalar was drawn from the operating system's generator"@
        },
{
}

/// The start of the message for a stored scalar `p256` does not accept.
pub open spec fn invalid_scalar_message(key_id: Seq<char>) -> Seq<char> {
    quoted("The stored key under "@, key_id, " is not a valid P-256 scalar: "@)
}

/// The start of the message for a signature `p256` failed to produce.
pub open spec fn signing_failed_message(key_id: Seq<char>) -> Seq<char> {
    quoted("Signing with the stored key under "@, key_id, " failed: "@)
}

/// What `sign` answers for `payload` given what is stored: no record is
/// `KeyNotFound`; a record whose scalar does not decode is `decode`'s error;
/// a scalar `p256` refuses, or a signature it fails to produce, is a keystore
/// failure, each with its own message; otherwise the answer is `p256`'s
/// 64-byte `r ‖ s` for that scalar.
pub open spec fn software_signature(
    key_id: Seq<char>,
    stored: Option<KeyRecord>,
    payload: Seq<u8>,
    r: Result<Vec<u8>, Error>,
) -> bool {
    match stored {
        None => r is Err && r->Err_0.is(
            SignerErrorCode::KeyNotFound,
            quoted("No key stored under "@, key_id, ""@),
        ),
        Some(record) => {
            &&& r is Err ==> r->Err_0.has_code(SignerErrorCode::KeystoreFailure)
            &&& base64url_bytes(without_trailing_pads(record.d@)) is None ==> r is Err && decoded(
                record.d@,
                r,
            )
            &&& forall|scalar: Seq<u8>|
                #![trigger base64url_text(scalar)]
                (base64url_bytes(without_trailing_pads(record.d@)) == Some(scalar)
                    || without_trailing_pads(record.d@) == base64url_text(scalar)) ==> {
                    &&& !p256_scalar_accepted(scalar) ==> r is Err && exists|why: Seq<char>|
                        r->Err_0.message@ == invalid_scalar_message(key_id) + why
                    &&& p256_scalar_accepted(scalar) ==> (r is Ok <==> p256_signature(
                        scalar,
                        payload,
                    ) is Some)
                    &&& p256_scalar_accepted(scalar) && r is Err ==> exists|why: Seq<char>|
                        r->Err_0.message@ == signing_failed_message(key_id) + why
                    &&& r is Ok ==> r->Ok_0@ == p256_signature(scalar, payload).unwrap()
                        && r->Ok_0@.len() == 64
                }
        },
    }
}

/// The handle describing `record` under `key_id`.
fn describe(key_id: &str, record: &KeyRecord) -> (k: SecureKey)
    ensures
        describes(k, key_id@, *record),
{
    SecureKey::new(
        key_id,
        EcPublicJwk::new(record.x.clone(), record.y.clone()),
        KeyBacking::Software,
    )
}

/// A key the software signer generated signs with the scalar whose public
/// point it reported: `sign` answers with a signature for the stored record
/// exactly when `p256` signs with that scalar, the signature is that scalar's,
/// and the handle's coordinates are that scalar's public point.
pub proof fn lemma_generated_key_signs_as_reported(
    key_id: Seq<char>,
    record: KeyRecord,
    key: SecureKey,
    scalar: Seq<u8>,
    payload: Seq<u8>,
    r: Result<Vec<u8>, Error>,
)
    requires
        record_of_scalar(record, scalar),
        describes(key, key_id, record),
        software_signature(key_id, Some(record), payload, r),
    ensures
        r is Ok <==> p256_signature(scalar, payload) is Some,
        r is Ok ==> r->Ok_0@ == p256_signature(scalar, payload).unwrap(),
        point_coordinates(p256_public_point(scalar)) matches Some((x, y)) && key.public_key.x@
            == base64url_text(x) && key.public_key.y@ == base64url_text(y),
{
    crate::b64::lemma_encoding_has_no_pads(record.d@);
    assert(without_trailing_pads(record.d@) == base64url_text(scalar));
}

/// A record file name stays inside the store: the name is the base64url of the
/// key id and `.json`, so it holds no `/`, and it is neither `.` nor `..` —
/// whatever the caller chose as the id, `../../etc/passwd` included.
pub proof fn lemma_record_file_name_stays_in_store(key_id: Seq<char>)
    requires
        all_base64url(base64url_text(vstd::utf8::encode_utf8(key_id))),
    ensures
        ({
            let name = base64url_text(vstd::utf8::encode_utf8(key_id)) + ".json"@;
            &&& forall|i: int| 0 <= i < name.len() ==> name[i] != '/'
            &&& name != "."@
            &&& name != ".."@
        }),
{
    reveal_strlit(".json");
    reveal_strlit(".");
    reveal_strlit("..");
    let encoded = base64url_text(vstd::utf8::encode_utf8(key_id));
    let name = encoded + ".json"@;
    assert forall|i: int| 0 <= i < name.len() implies name[i] != '/' by {
        if i < encoded.len() {
            assert(is_base64url_char(encoded[i]));
        }
    }
    assert(name.len() >= 5);
}

/// Distinct key ids get distinct record file names: two ids whose names
/// coincide are the same id. The file name is the base64url of the id's UTF-8
/// bytes, which `decode` (whichever answer it gives for that name's stem)
/// turns back into exactly those bytes, and UTF-8 decodes back to the id.
pub proof fn lemma_distinct_ids_distinct_file_names(
    a: Seq<char>,
    b: Seq<char>,
    r: Result<Vec<u8>, Error>,
)
    requires
        base64url_text(vstd::utf8::encode_utf8(a)) + ".json"@ == base64url_text(
            vstd::utf8::encode_utf8(b),
        ) + ".json"@,
        all_base64url(base64url_text(vstd::utf8::encode_utf8(a))),
        decoded(base64url_text(vstd::utf8::encode_utf8(a)), r),
    ensures
        a == b,
{
    let ta = base64url_text(vstd::utf8::encode_utf8(a));
    let tb = base64url_text(vstd::utf8::encode_utf8(b));
    let ja = ta + ".json"@;
    assert(ja.len() == tb.len() + ".json"@.len());
    assert(ta =~= ja.subrange(0, ta.len() as int));
    assert(tb =~= (tb + ".json"@).subrange(0, tb.len() as int));
    assert(ta == tb);
    crate::b64::lemma_encoding_has_no_pads(ta);
    assert(without_trailing_pads(ta) == base64url_text(vstd::utf8::encode_utf8(a)));
    assert(without_trailing_pads(ta) == base64url_text(vstd::utf8::encode_utf8(b)));
    assert(vstd::utf8::encode_utf8(a) == vstd::utf8::encode_utf8(b));
    vstd::utf8::encode_utf8_decode_utf8(a);
    vstd::utf8::encode_utf8_decode_utf8(b);
}

/// A key reads back as the handle `generate_key` reported for it: the same id,
/// coordinates and backing, given the record it stored.
pub proof fn lemma_stored_key_reads_back(
    key_id: Seq<char>,
    record: KeyRecord,
    generated: SecureKey,
    read_back: SecureKey,
)
    requires
        describes(generated, key_id, record),
        describes(read_back, key_id, record),
    ensures
        read_back.key_id@ == generated.key_id@,
        read_back.public_key.x@ == generated.public_key.x@,
        read_back.public_key.y@ == generated.public_key.y@,
        read_back.public_key.crv@ == generated.public_key.crv@,
        read_back.backing == generated.backing,
        read_back.hardware_backed == generated.hardware_backed,
{
}

} // verus!
