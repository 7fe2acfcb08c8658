//! Compact JWS assembly for Rust callers.
//!
//! Deliberately *not* exposed as an IPC command: routing a JSON value through
//! Rust's serializer and back would let the bytes signed differ from the bytes
//! the frontend believes it asked for.

use vstd::prelude::*;

use crate::b64::{base64url_text, decoded, encode, is_base64url_char, pads};
use crate::error::Error;
use crate::text::joined3;
use vstd::string::StringSliceAdditionalSpecFns;

verus! {

/// The fixed JWS protected header for ES256, pre-encoded.
///
/// A verifier expects exactly `{"alg":"ES256","typ":"JWT"}`; key order is part
/// of the encoded bytes, so this is a literal rather than a serialized map.
pub const PROTECTED_HEADER_JSON: &'static str = "{\"alg\":\"ES256\",\"typ\":\"JWT\"}";

/// Three segments joined by `.`, as compact JWS serialization writes them.
pub open spec fn dotted(a: Seq<char>, b: Seq<char>, c: Seq<char>) -> Seq<char> {
    a + "."@ + b + "."@ + c
}

/// No character of `text` is a `.`.
pub open spec fn dot_free(text: Seq<char>) -> bool {
    forall|i: int| 0 <= i < text.len() ==> text[i] != '.'
}

/// Every character of `text` is in the URL-safe base64 alphabet.
pub open spec fn all_base64url(text: Seq<char>) -> bool {
    forall|i: int| 0 <= i < text.len() ==> is_base64url_char(#[trigger] text[i])
}

/// The signing input for a payload: `base64url(header).base64url(payload)`.
pub open spec fn signing_input_of(payload: Seq<u8>) -> Seq<char> {
    base64url_text(PROTECTED_HEADER_JSON.spec_bytes()) + "."@ + base64url_text(payload)
}

proof fn lemma_header_is_ascii()
    ensures
        PROTECTED_HEADER_JSON.spec_bytes().len() == 27,
{
    reveal_strlit("{\"alg\":\"ES256\",\"typ\":\"JWT\"}");
    broadcast use vstd::string::is_ascii_spec_bytes;

    assert(vstd::string::is_ascii(PROTECTED_HEADER_JSON));
}

/// `base64url(header).base64url(payload)` — the exact bytes that get signed.
///
/// Both segments are in the URL-safe alphabet, so neither holds a `.`, `=`,
/// `+` or `/`, and `decode` gives back exactly the header and the payload's
/// bytes from them: the payload is signed as given, never re-serialized.
///
/// `payload_json` must already be the caller's chosen serialization. It is
/// taken as a string rather than a JSON value on purpose: re-encoding a map
/// here would reorder its keys.
pub fn signing_input(payload_json: &str) -> (s: String)
    requires
        payload_json.spec_bytes().len() <= isize::MAX,
    ensures
        s@ == signing_input_of(payload_json.spec_bytes()),
        all_base64url(base64url_text(PROTECTED_HEADER_JSON.spec_bytes())),
        all_base64url(base64url_text(payload_json.spec_bytes())),
        forall|r: Result<Vec<u8>, Error>|
            #[trigger] decoded(base64url_text(PROTECTED_HEADER_JSON.spec_bytes()), r) ==> (r matches Ok(
                v,
            ) && v@ == PROTECTED_HEADER_JSON.spec_bytes()),
        forall|r: Result<Vec<u8>, Error>|
            #[trigger] decoded(base64url_text(payload_json.spec_bytes()), r) ==> (r matches Ok(v)
                && v@ == payload_json.spec_bytes()),
        s@ == base64url_text(PROTECTED_HEADER_JSON.spec_bytes()) + "."@ + base64url_text(
            payload_json.spec_bytes(),
        ),
        forall|h: Seq<char>, q: Seq<char>, rh: Result<Vec<u8>, Error>, rq: Result<Vec<u8>, Error>|
            #![trigger decoded(h, rh), decoded(q, rq)]
            s@ == h + "."@ + q && dot_free(h) && decoded(h, rh) && decoded(q, rq) ==> (rh matches Ok(
                v,
            ) && v@ == PROTECTED_HEADER_JSON.spec_bytes()) && (rq matches Ok(v) && v@
                == payload_json.spec_bytes()),
{
    proof {
        lemma_header_is_ascii();
    }
    let header = encode(PROTECTED_HEADER_JSON.as_bytes());
    let payload = encode(payload_json.as_bytes());
    proof {
        assert(header@ + pads(0) =~= header@);
        assert(payload@ + pads(0) =~= payload@);
    }
    let s = joined3(header.as_str(), ".", payload.as_str());
    proof {
        assert forall|h: Seq<char>, q: Seq<char>, rh: Result<Vec<u8>, Error>, rq: Result<Vec<u8>, Error>|
            s@ == h + "."@ + q && dot_free(h) && decoded(h, rh) && decoded(q, rq) implies (rh matches Ok(
                v,
            ) && v@ == PROTECTED_HEADER_JSON.spec_bytes()) && (rq matches Ok(v) && v@
                == payload_json.spec_bytes()) by {
            lemma_signing_input_segments_decode(payload_json.spec_bytes(), s@, h, q, rh, rq);
        }
    }
    s
}

/// The signing input carries the header and the whole payload: whatever text
/// stands before its first `.` decodes to exactly the protected header, and
/// whatever stands after it decodes to exactly the payload's bytes, at every
/// payload length. (`encode`, which writes both segments, guarantees their
/// alphabet.)
pub proof fn lemma_signing_input_segments_decode(
    payload: Seq<u8>,
    s: Seq<char>,
    h: Seq<char>,
    q: Seq<char>,
    rh: Result<Vec<u8>, Error>,
    rq: Result<Vec<u8>, Error>,
)
    requires
        s == signing_input_of(payload),
        all_base64url(base64url_text(PROTECTED_HEADER_JSON.spec_bytes())),
        all_base64url(base64url_text(payload)),
        s == h + "."@ + q,
        dot_free(h),
        decoded(h, rh),
        decoded(q, rq),
    ensures
        rh matches Ok(v) && v@ == PROTECTED_HEADER_JSON.spec_bytes(),
        rq matches Ok(v) && v@ == payload,
{
    let header_text = base64url_text(PROTECTED_HEADER_JSON.spec_bytes());
    let payload_text = base64url_text(payload);
    lemma_base64url_is_dot_free(header_text);
    lemma_first_dot(h, q, header_text, payload_text);
    assert(header_text + pads(0) =~= header_text);
    assert(payload_text + pads(0) =~= payload_text);
    crate::b64::lemma_decode_inverts_encode(PROTECTED_HEADER_JSON.spec_bytes(), header_text, 0, rh);
    crate::b64::lemma_decode_inverts_encode(payload, payload_text, 0, rq);
}

/// Glue a 64-byte IEEE P1363 signature onto its signing input.
pub fn compact(signing_input: &str, signature: &[u8]) -> (s: String)
    requires
        signature@.len() <= isize::MAX,
    ensures
        s@ == signing_input@ + "."@ + base64url_text(signature@),
        all_base64url(base64url_text(signature@)),
{
    let tail = encode(signature);
    joined3(signing_input, ".", tail.as_str())
}

/// Base64url text holds no `.`, so the separators are the only dots.
pub proof fn lemma_base64url_is_dot_free(text: Seq<char>)
    requires
        all_base64url(text),
    ensures
        dot_free(text),
{
}

proof fn lemma_first_dot(a: Seq<char>, rest: Seq<char>, a2: Seq<char>, rest2: Seq<char>)
    requires
        dot_free(a),
        dot_free(a2),
        a + "."@ + rest == a2 + "."@ + rest2,
    ensures
        a == a2,
        rest == rest2,
{
    reveal_strlit(".");
    let whole = a + "."@ + rest;
    if a.len() < a2.len() {
        assert(whole[a.len() as int] == '.');
        assert((a2 + "."@ + rest2)[a.len() as int] == a2[a.len() as int]);
    } else if a2.len() < a.len() {
        assert((a2 + "."@ + rest2)[a2.len() as int] == '.');
        assert(whole[a2.len() as int] == a[a2.len() as int]);
    }
    assert(a =~= whole.subrange(0, a.len() as int));
    assert(a2 =~= (a2 + "."@ + rest2).subrange(0, a2.len() as int));
    assert(rest =~= whole.subrange(a.len() + 1int, whole.len() as int));
    assert(rest2 =~= (a2 + "."@ + rest2).subrange(a2.len() + 1int, whole.len() as int));
}

/// A compact JWS splits back into exactly the segments it was joined from:
/// with no `.` inside the first two segments, the header, payload and
/// signature a verifier reads are the ones that were written.
pub proof fn lemma_compact_segments_are_recoverable(
    a: Seq<char>,
    b: Seq<char>,
    c: Seq<char>,
    a2: Seq<char>,
    b2: Seq<char>,
    c2: Seq<char>,
)
    requires
        dot_free(a),
        dot_free(b),
        dot_free(a2),
        dot_free(b2),
        dotted(a, b, c) == dotted(a2, b2, c2),
    ensures
        a == a2,
        b == b2,
        c == c2,
{
    assert(dotted(a, b, c) =~= a + "."@ + (b + "."@ + c));
    assert(dotted(a2, b2, c2) =~= a2 + "."@ + (b2 + "."@ + c2));
    lemma_first_dot(a, b + "."@ + c, a2, b2 + "."@ + c2);
    lemma_first_dot(b, c, b2, c2);
}

} // verus!
