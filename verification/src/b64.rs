//! base64url without padding, as RFC 7515 requires everywhere in this crate.
//!
//! One module rather than a call to `URL_SAFE_NO_PAD` scattered about, because
//! a single padded encoder slipping in would produce a JWK whose thumbprint
//! does not match the one the same key produced elsewhere.

use vstd::prelude::*;

use base64::engine::general_purpose::URL_SAFE_NO_PAD;
use base64::Engine as _;

use crate::error::{Error, SignerErrorCode};
use crate::text::joined;

verus! {

/// `base64::DecodeError`, carried from the decoder to the message that reports it.
#[verifier::external_type_specification]
#[verifier::external_body]
pub struct ExDecodeError(base64::DecodeError);

/// The unpadded base64url text of `bytes`, as `base64`'s `URL_SAFE_NO_PAD`
/// engine writes it.
pub uninterp spec fn base64url_text(bytes: Seq<u8>) -> Seq<char>;

/// The bytes that `base64`'s `URL_SAFE_NO_PAD` engine decodes from `text`, or
/// `None` where it reports an error.
pub uninterp spec fn base64url_bytes(text: Seq<char>) -> Option<Seq<u8>>;

/// A character of the URL-safe base64 alphabet (RFC 4648 §5): `A`–`Z`, `a`–`z`,
/// `0`–`9`, `-` and `_`.
pub open spec fn is_base64url_char(c: char) -> bool {
    ('A' <= c && c <= 'Z') || ('a' <= c && c <= 'z') || ('0' <= c && c <= '9') || c == '-' || c
        == '_'
}

/// The length of the unpadded encoding of `n` bytes: four characters per
/// three bytes, and two or three for a final partial group.
pub open spec fn base64url_len(n: nat) -> nat {
    n / 3 * 4 + if n % 3 == 0 {
        0nat
    } else if n % 3 == 1 {
        2nat
    } else {
        3nat
    }
}

/// Whether the encoding of `n` bytes has a length that `usize` can hold.
pub open spec fn encodable(n: nat) -> bool {
    base64url_len(n) <= usize::MAX
}

/// Calls `base64`'s `Engine::encode` on `URL_SAFE_NO_PAD`.
///
/// Trusted: the result is the engine's encoding of `bytes`, it is
/// `base64url_len` characters long, and every character is in the URL-safe
/// alphabet, which is what the crate's `alphabet::URL_SAFE` and `encoded_len`
/// state. The engine panics when that length overflows `usize`, which
/// `requires` leaves out.
#[verifier::external_body]
fn engine_encode(bytes: &[u8]) -> (text: String)
    requires
        encodable(bytes@.len()),
    ensures
        text@ == base64url_text(bytes@),
        text@.len() == base64url_len(bytes@.len()),
        forall|i: int| 0 <= i < text@.len() ==> is_base64url_char(#[trigger] text@[i]),
{
    URL_SAFE_NO_PAD.encode(bytes)
}

/// `count` padding characters.
pub open spec fn pads(count: nat) -> Seq<char> {
    Seq::new(count, |i: int| '=')
}

/// Every slice is at most `isize::MAX` bytes long, and the encoding of that
/// many bytes fits in a `usize`.
proof fn lemma_slice_len_is_encodable(n: nat)
    requires
        n <= isize::MAX,
    ensures
        encodable(n),
{
    assert(n / 3 * 4 <= n + n / 3) by (nonlinear_arith);
    assert(isize::MAX + isize::MAX / 3 + 3 <= usize::MAX);
}

/// Encode bytes as unpadded base64url.
///
/// `requires` only restates what holds of every slice, that it is at most
/// `isize::MAX` bytes long. The text is `base64`'s encoding of `bytes`, in the
/// URL-safe alphabet and of the unpadded length; `decode` turns it back into
/// exactly `bytes`, whatever number of `=` a caller appends to it.
pub fn encode(bytes: &[u8]) -> (text: String)
    requires
        bytes@.len() <= isize::MAX,
    ensures
        text@ == base64url_text(bytes@),
        text@.len() == base64url_len(bytes@.len()),
        forall|i: int| 0 <= i < text@.len() ==> is_base64url_char(#[trigger] text@[i]),
        forall|count: nat, r: Result<Vec<u8>, Error>|
            #[trigger] decoded(text@ + pads(count), r) ==> (r matches Ok(v) && v@ == bytes@),
{
    proof {
        lemma_slice_len_is_encodable(bytes@.len());
    }
    let text = engine_encode(bytes);
    proof {
        assert forall|count: nat, r: Result<Vec<u8>, Error>|
            #[trigger] decoded(text@ + pads(count), r) implies (r matches Ok(v) && v@ == bytes@) by {
            lemma_decode_inverts_encode(bytes@, text@, count, r);
        }
    }
    text
}

/// Appending `=` to text that does not end in one is undone by trimming.
proof fn lemma_padding_is_trimmed(text: Seq<char>, count: nat)
    ensures
        without_trailing_pads(text + pads(count)) == without_trailing_pads(text),
    decreases count,
{
    if count == 0 {
        assert(text + pads(0) =~= text);
    } else {
        let padded = text + pads(count);
        assert(padded.last() == '=');
        assert(padded.drop_last() =~= text + pads((count - 1) as nat));
        lemma_padding_is_trimmed(text, (count - 1) as nat);
    }
}

/// Calls `base64`'s `Engine::decode` on `URL_SAFE_NO_PAD`.
///
/// Trusted: the result is the engine's decoding of `text`, and text that the
/// same engine encoded from some bytes decodes to exactly those bytes — the
/// round trip the crate documents and tests. Which other inputs it accepts is
/// left to the name.
#[verifier::external_body]
fn engine_decode(text: &str) -> (r: Result<Vec<u8>, base64::DecodeError>)
    ensures
        r is Ok <==> base64url_bytes(text@) is Some,
        r is Ok ==> r->Ok_0@ == base64url_bytes(text@).unwrap(),
        forall|b: Seq<u8>| text@ == #[trigger] base64url_text(b) ==> r is Ok && r->Ok_0@ == b,
{
    URL_SAFE_NO_PAD.decode(text)
}

/// Calls `DecodeError`'s `Display` impl; nothing is stated of the text.
#[verifier::external_body]
fn decode_error_text(e: &base64::DecodeError) -> String {
    format!("{e}")
}

/// `text` with every trailing `=` removed.
pub open spec fn without_trailing_pads(text: Seq<char>) -> Seq<char>
    decreases text.len(),
{
    if text.len() > 0 && text.last() == '=' {
        without_trailing_pads(text.drop_last())
    } else {
        text
    }
}

/// The length of `text` once its trailing `=` are removed.
fn trimmed_len(text: &str) -> (n: usize)
    ensures
        n <= text@.len(),
        text@.subrange(0, n as int) == without_trailing_pads(text@),
{
    let mut n = text.unicode_len();
    proof {
        assert(text@.subrange(0, n as int) =~= text@);
    }
    while n > 0 && text.get_char(n - 1) == '='
        invariant
            n <= text@.len(),
            without_trailing_pads(text@.subrange(0, n as int)) == without_trailing_pads(text@),
        decreases n,
    {
        proof {
            assert(text@.subrange(0, n as int).drop_last() =~= text@.subrange(0, n - 1));
        }
        n = n - 1;
    }
    n
}

/// What `decode` answers for `value`: the engine's decoding of `value` with its
/// trailing `=` removed, a keystore failure where the engine refuses it, and —
/// for text the engine encoded — exactly the bytes it was encoded from.
pub open spec fn decoded(value: Seq<char>, r: Result<Vec<u8>, Error>) -> bool {
    &&& match base64url_bytes(without_trailing_pads(value)) {
        Some(b) => r matches Ok(v) && v@ == b,
        None => r is Err && r->Err_0.has_code(SignerErrorCode::KeystoreFailure) && exists|
            why: Seq<char>,
        | r->Err_0.message@ == "Argument is not valid base64url: "@ + why,
    }
    &&& forall|b: Seq<u8>|
        without_trailing_pads(value) == #[trigger] base64url_text(b) ==> (r matches Ok(v) && v@
            == b)
}

/// Decode unpadded base64url, tolerating padding a caller may have added.
pub fn decode(value: &str) -> (r: Result<Vec<u8>, Error>)
    ensures
        decoded(value@, r),
{
    let n = trimmed_len(value);
    let trimmed = value.substring_char(0, n);
    match engine_decode(trimmed) {
        Ok(bytes) => Ok(bytes),
        Err(e) => {
            let why = decode_error_text(&e);
            let message = joined("Argument is not valid base64url: ", why.as_str());
            proof {
                assert(message@ == "Argument is not valid base64url: "@ + why@);
            }
            Err(Error::new(SignerErrorCode::KeystoreFailure, message.as_str()))
        },
    }
}

/// Text in the URL-safe alphabet — everything `encode` returns — ends in no
/// `=`, so `decode` trims nothing from it and, by its contract, gives back the
/// bytes it was encoded from.
pub proof fn lemma_encoding_has_no_pads(text: Seq<char>)
    requires
        forall|i: int| 0 <= i < text.len() ==> is_base64url_char(#[trigger] text[i]),
    ensures
        without_trailing_pads(text) == text,
{
    if text.len() > 0 {
        assert(is_base64url_char(text[text.len() - 1]));
    }
}

/// Decoding what `encode` produced, with any number of `=` appended, gives
/// back the bytes it was encoded from: `encode`'s text is
/// `base64url_text(bytes)` in the URL-safe alphabet, `decode` trims the `=`,
/// and for such text its answer is those bytes.
pub proof fn lemma_decode_inverts_encode(
    bytes: Seq<u8>,
    text: Seq<char>,
    count: nat,
    r: Result<Vec<u8>, Error>,
)
    requires
        text == base64url_text(bytes),
        forall|i: int| 0 <= i < text.len() ==> is_base64url_char(#[trigger] text[i]),
        decoded(text + pads(count), r),
    ensures
        r matches Ok(v) && v@ == bytes,
{
    lemma_padding_is_trimmed(text, count);
    lemma_encoding_has_no_pads(text);
}

} // verus!
