//! ASN.1 DER → IEEE P1363 conversion for P-256 ECDSA signatures.
//!
//! Platform signers emit **ASN.1 DER** `SEQUENCE { INTEGER r, INTEGER s }`.
//! JWS ES256 (RFC 7515 §3.4) requires **IEEE P1363** — the two integers as
//! fixed-width 32-byte big-endian values, concatenated, unwrapped.
//!
//! Getting this wrong is silent *and intermittent*: DER encodes integers
//! minimally, so a component whose top byte happens to be zero is one byte
//! shorter — roughly 1 signature in 256 per component.

use vstd::prelude::*;

use crate::error::{Error, SignerErrorCode};
use crate::text::{decimal, joined, joined3};

verus! {

/// Byte width of one P-256 coordinate.
pub const COORDINATE_LENGTH: usize = 32;

/// Total length of a P-256 P1363 signature.
pub const P1363_LENGTH: usize = COORDINATE_LENGTH * 2;

// ---------------------------------------------------------------------------
// What the conversion accepts and produces
// ---------------------------------------------------------------------------

/// An INTEGER's content with DER's leading zero bytes removed (all but the last
/// byte, so a zero value keeps one `0x00`).
pub open spec fn magnitude(v: Seq<u8>) -> Seq<u8>
    decreases v.len(),
{
    if v.len() > 1 && v[0] == 0 {
        magnitude(v.drop_first())
    } else {
        v
    }
}

/// `m` left-padded with zero bytes to a 32-byte coordinate.
pub open spec fn left_padded(m: Seq<u8>) -> Seq<u8> {
    Seq::new((32 - m.len()) as nat, |_i: int| 0u8) + m
}

/// The P1363 coordinate that an INTEGER's content denotes.
pub open spec fn coordinate(v: Seq<u8>) -> Seq<u8> {
    left_padded(magnitude(v))
}

/// The SEQUENCE header: the offset of its first content byte and the content
/// length it declares. Short form, or long form with one or two length octets.
pub open spec fn sequence_header(der: Seq<u8>) -> Option<(int, int)> {
    if der.len() < 2 || der[0] != 0x30 {
        None
    } else if der[1] < 0x80 {
        Some((2, der[1] as int))
    } else if der[1] == 0x81 {
        if der.len() < 3 {
            None
        } else {
            Some((3, der[2] as int))
        }
    } else if der[1] == 0x82 {
        if der.len() < 4 {
            None
        } else {
            Some((4, der[2] as int * 256 + der[3] as int))
        }
    } else {
        None
    }
}

/// The INTEGER at offset `at`: its content and the offset just past it. The
/// length must be short-form and non-zero, and the content must fit.
pub open spec fn integer_at(der: Seq<u8>, at: int) -> Option<(Seq<u8>, int)> {
    if at < 0 || at + 2 > der.len() || der[at] != 0x02 {
        None
    } else if der[at + 1] >= 0x80 || der[at + 1] == 0 || at + 2 + der[at + 1] > der.len() {
        None
    } else {
        Some((der.subrange(at + 2, at + 2 + der[at + 1]), at + 2 + der[at + 1]))
    }
}

/// The P1363 `r‖s` that a DER signature denotes, or `None` when the bytes are
/// not a signature this conversion accepts: a SEQUENCE whose declared length is
/// exactly the rest of the buffer, holding exactly two INTEGERs, each with a
/// magnitude of at most 32 bytes.
pub open spec fn p1363_of_der(der: Seq<u8>) -> Option<Seq<u8>> {
    match sequence_header(der) {
        None => None,
        Some((start, n)) => if start + n != der.len() {
            None
        } else {
            match integer_at(der, start) {
                None => None,
                Some((r, after_r)) => match integer_at(der, after_r) {
                    None => None,
                    Some((s, after_s)) => if after_s != der.len() || magnitude(r).len() > 32
                        || magnitude(s).len() > 32 {
                        None
                    } else {
                        Some(coordinate(r) + coordinate(s))
                    },
                },
            }
        },
    }
}

// ---------------------------------------------------------------------------
// The conversion
// ---------------------------------------------------------------------------

fn malformed(what: &str) -> (e: Error)
    ensures
        e.is(SignerErrorCode::KeystoreFailure, what@),
{
    Error::new(SignerErrorCode::KeystoreFailure, what)
}

/// Read one byte, bounds-checked before the read.
fn read_byte(der: &[u8], offset: &mut usize, what: &str) -> (r: Result<u8, Error>)
    ensures
        *old(offset) < der@.len() ==> r == Ok::<u8, Error>(der@[*old(offset) as int]),
        *old(offset) < der@.len() ==> *final(offset) == *old(offset) + 1,
        *old(offset) >= der@.len() ==> r is Err,
        *old(offset) >= der@.len() ==> r->Err_0.has_code(SignerErrorCode::KeystoreFailure),
        *old(offset) >= der@.len() ==> *final(offset) == *old(offset),
{
    if *offset < der.len() {
        let byte = der[*offset];
        *offset = *offset + 1;
        Ok(byte)
    } else {
        let message = joined("Truncated DER signature: expected ", what);
        Err(malformed(message.as_str()))
    }
}

/// Read one DER INTEGER's value bytes, as the range of `der` that holds them.
fn read_integer(der: &[u8], offset: &mut usize, what: &str) -> (r: Result<(usize, usize), Error>)
    ensures
        match integer_at(der@, *old(offset) as int) {
            Some((v, next)) => r matches Ok((start, end)) && start as int + v.len() == end
                && der@.subrange(start as int, end as int) == v && next == end && *final(offset)
                == end,
            None => r is Err && r->Err_0.has_code(SignerErrorCode::KeystoreFailure),
        },
{
    let tag = read_byte(der, offset, "INTEGER tag")?;
    if tag != 0x02 {
        let message = joined("Expected DER INTEGER for ", what);
        return Err(malformed(message.as_str()));
    }
    let length_byte = read_byte(der, offset, "INTEGER length")?;
    let length = length_byte as usize;
    if length >= 0x80 {
        let message = joined("Unsupported long-form DER INTEGER for ", what);
        return Err(malformed(message.as_str()));
    }
    if length == 0 {
        // Without this, `300402000200` parses as r = 0, s = 0 and yields 64 zero
        // bytes — a bogus signature accepted as valid.
        let message = joined("Zero-length DER INTEGER for ", what);
        return Err(malformed(message.as_str()));
    }
    let start = *offset;
    if length > der.len() - start {
        let message = joined("Truncated DER INTEGER for ", what);
        return Err(malformed(message.as_str()));
    }
    let end = start + length;
    *offset = end;
    Ok((start, end))
}

/// Stripping one leading zero byte leaves the magnitude unchanged.
proof fn lemma_magnitude_skip(v: Seq<u8>, k: int)
    requires
        0 <= k < v.len(),
        forall|i: int| 0 <= i < k ==> v[i] == 0,
    ensures
        magnitude(v) == magnitude(v.skip(k)),
    decreases k,
{
    if k > 0 {
        assert(v[0] == 0);
        assert(v.drop_first() =~= v.skip(1));
        lemma_magnitude_skip(v.skip(1), k - 1);
        assert(v.skip(1).skip(k - 1) =~= v.skip(k));
    } else {
        assert(v.skip(0) =~= v);
    }
}

/// Strip DER's minimal-encoding leading zeros from `der[start..end]`, then
/// left-pad to 32 bytes.
///
/// Both halves matter: a high-bit component carries a `0x00` sign byte that
/// must NOT survive into P1363, and a short component must be padded on the
/// LEFT — right-alignment silently multiplies the value by 256^n.
fn normalise(der: &[u8], start: usize, end: usize) -> (r: Result<Vec<u8>, Error>)
    requires
        start < end <= der@.len(),
    ensures
        ({
            let v = der@.subrange(start as int, end as int);
            &&& magnitude(v).len() <= 32 ==> (r matches Ok(out) && out@ == coordinate(v))
            &&& magnitude(v).len() > 32 ==> r is Err && r->Err_0.has_code(
                SignerErrorCode::KeystoreFailure,
            )
        }),
{
    let ghost v = der@.subrange(start as int, end as int);
    let mut first = start;
    while first < end - 1 && der[first] == 0
        invariant
            start <= first < end,
            end <= der@.len(),
            v == der@.subrange(start as int, end as int),
            forall|i: int| start <= i < first ==> der@[i] == 0,
        decreases end - first,
    {
        first = first + 1;
    }
    proof {
        lemma_magnitude_skip(v, first - start);
        let rest = v.skip(first - start);
        assert(rest =~= der@.subrange(first as int, end as int));
        assert(magnitude(rest) == rest) by {
            if rest.len() > 1 {
                assert(rest[0] == der@[first as int]);
            }
        }
    }
    let width = end - first;
    if width > COORDINATE_LENGTH {
        let message = joined3("ECDSA integer longer than ", decimal(COORDINATE_LENGTH).as_str(), " bytes");
        return Err(malformed(message.as_str()));
    }
    let mut out: Vec<u8> = Vec::with_capacity(COORDINATE_LENGTH);
    let mut i: usize = 0;
    while i < COORDINATE_LENGTH - width
        invariant
            i <= COORDINATE_LENGTH - width,
            out@ =~= Seq::new(i as nat, |_j: int| 0u8),
        decreases COORDINATE_LENGTH - width - i,
    {
        out.push(0u8);
        i = i + 1;
    }
    let mut k = first;
    while k < end
        invariant
            first <= k <= end,
            end <= der@.len(),
            width == end - first,
            out@ =~= Seq::new((COORDINATE_LENGTH - width) as nat, |_j: int| 0u8) + der@.subrange(
                first as int,
                k as int,
            ),
        decreases end - k,
    {
        out.push(der[k]);
        k = k + 1;
    }
    Ok(out)
}

/// The SEQUENCE header as the conversion reads it.
fn read_sequence_header(der: &[u8], offset: &mut usize) -> (r: Result<usize, Error>)
    requires
        *old(offset) == 0,
    ensures
        match sequence_header(der@) {
            Some((start, n)) => r == Ok::<usize, Error>(n as usize) && *final(offset) == start,
            None => r is Err && r->Err_0.has_code(SignerErrorCode::KeystoreFailure),
        },
{
    if read_byte(der, offset, "SEQUENCE tag")? != 0x30 {
        return Err(malformed("DER signature does not start with SEQUENCE"));
    }
    let first = read_byte(der, offset, "SEQUENCE length")?;
    let mut sequence_length = first as usize;
    if first >= 0x80 {
        let octets = (first - 0x80) as usize;
        if octets < 1 || octets > 2 {
            let message = joined3("Unsupported DER length form (", decimal(octets).as_str(), " octets)");
            return Err(malformed(message.as_str()));
        }
        sequence_length = 0;
        let mut i: usize = 0;
        while i < octets
            invariant
                1 <= octets <= 2,
                i <= octets,
                *offset == 2 + i,
                2 + i <= der@.len(),
                der@.len() >= 2,
                der@[1] == 0x80 + octets,
                i == 0 ==> sequence_length == 0,
                i == 1 ==> sequence_length == der@[2],
                i == 2 ==> sequence_length == der@[2] as int * 256 + der@[3] as int,
            decreases octets - i,
        {
            let byte = read_byte(der, offset, "SEQUENCE length octet")?;
            sequence_length = sequence_length * 256 + byte as usize;
            i = i + 1;
        }
    }
    Ok(sequence_length)
}

/// Convert an ASN.1 DER ECDSA signature to IEEE P1363 `r‖s`.
///
/// The result is **always** exactly [`P1363_LENGTH`] bytes, or this returns an
/// error. Every bound is checked before the read, so malformed input fails
/// cleanly rather than panicking on a slice index.
pub fn der_to_p1363(der: &[u8]) -> (r: Result<Vec<u8>, Error>)
    ensures
        match p1363_of_der(der@) {
            Some(p) => r matches Ok(out) && out@ == p && out@.len() == P1363_LENGTH,
            None => r is Err && r->Err_0.has_code(SignerErrorCode::KeystoreFailure),
        },
{
    let mut offset: usize = 0;
    let sequence_length = read_sequence_header(der, &mut offset)?;
    if sequence_length > der.len() || offset != der.len() - sequence_length {
        return Err(malformed("DER length mismatch"));
    }
    let (r_start, r_end) = read_integer(der, &mut offset, "r")?;
    let r = normalise(der, r_start, r_end)?;
    let (s_start, s_end) = read_integer(der, &mut offset, "s")?;
    let s = normalise(der, s_start, s_end)?;

    // r and s must account for the entire SEQUENCE. Without this, trailing bytes
    // are silently ignored, which makes the encoding malleable.
    if offset != der.len() {
        let message = joined(decimal(der.len() - offset).as_str(), " trailing byte(s) after s");
        return Err(malformed(message.as_str()));
    }

    let mut out: Vec<u8> = Vec::with_capacity(P1363_LENGTH);
    let mut i: usize = 0;
    while i < COORDINATE_LENGTH
        invariant
            i <= COORDINATE_LENGTH,
            r@.len() == COORDINATE_LENGTH,
            out@ =~= r@.subrange(0, i as int),
        decreases COORDINATE_LENGTH - i,
    {
        out.push(r[i]);
        i = i + 1;
    }
    let mut j: usize = 0;
    while j < COORDINATE_LENGTH
        invariant
            j <= COORDINATE_LENGTH,
            r@.len() == COORDINATE_LENGTH,
            s@.len() == COORDINATE_LENGTH,
            out@ =~= r@ + s@.subrange(0, j as int),
        decreases COORDINATE_LENGTH - j,
    {
        out.push(s[j]);
        j = j + 1;
    }
    Ok(out)
}

// ---------------------------------------------------------------------------
// What the conversion means
// ---------------------------------------------------------------------------

/// The ways a SEQUENCE may write its content length that the conversion reads.
pub enum LengthForm {
    /// One octet below `0x80`.
    Short,
    /// `0x81` and one length octet.
    OneOctet,
    /// `0x82` and two length octets, big-endian.
    TwoOctets,
}

/// The length octets of a SEQUENCE whose content is `n` bytes, in `form`.
pub open spec fn length_octets(form: LengthForm, n: nat) -> Seq<u8> {
    match form {
        LengthForm::Short => seq![n as u8],
        LengthForm::OneOctet => seq![0x81u8, n as u8],
        LengthForm::TwoOctets => seq![0x82u8, (n / 256) as u8, (n % 256) as u8],
    }
}

/// Whether `form` can write the length `n`.
pub open spec fn length_fits(form: LengthForm, n: nat) -> bool {
    match form {
        LengthForm::Short => n < 0x80,
        LengthForm::OneOctet => n < 0x100,
        LengthForm::TwoOctets => n < 0x10000,
    }
}

/// A DER INTEGER with short-form length and content `v`.
pub open spec fn der_integer(v: Seq<u8>) -> Seq<u8> {
    seq![0x02u8, v.len() as u8] + v
}

/// INTEGER content the conversion accepts: a short, non-empty length and a
/// magnitude that fits a P-256 coordinate.
pub open spec fn integer_content_ok(v: Seq<u8>) -> bool {
    &&& 1 <= v.len() < 0x80
    &&& magnitude(v).len() <= 32
}

/// `SEQUENCE { INTEGER r, INTEGER s }` with its length written in `form`.
pub open spec fn der_signature(form: LengthForm, r: Seq<u8>, s: Seq<u8>) -> Seq<u8> {
    let body = der_integer(r) + der_integer(s);
    seq![0x30u8] + length_octets(form, body.len()) + body
}

/// The minimal DER INTEGER content of an unsigned big-endian coordinate: no
/// redundant leading zeros, and a `0x00` sign byte when the top bit is set.
pub open spec fn minimal_content(c: Seq<u8>) -> Seq<u8> {
    let m = magnitude(c);
    if m[0] >= 0x80 {
        seq![0u8] + m
    } else {
        m
    }
}

/// The DER signature a platform signer emits for the P1363 value `p`.
pub open spec fn minimal_der_of(p: Seq<u8>) -> Seq<u8> {
    der_signature(
        LengthForm::Short,
        minimal_content(p.subrange(0, 32)),
        minimal_content(p.subrange(32, 64)),
    )
}

proof fn lemma_integer_at_encoded(prefix: Seq<u8>, v: Seq<u8>, rest: Seq<u8>)
    requires
        1 <= v.len() < 0x80,
    ensures
        integer_at(prefix + der_integer(v) + rest, prefix.len() as int) == Some(
            (v, (prefix.len() + 2 + v.len()) as int),
        ),
{
    let der = prefix + der_integer(v) + rest;
    let at = prefix.len() as int;
    assert(der[at] == 0x02);
    assert(der[at + 1] == v.len() as u8);
    assert(der.subrange(at + 2, at + 2 + v.len()) =~= v);
}

/// Every signature written as `SEQUENCE { INTEGER r, INTEGER s }`, with any
/// length form that fits, converts to the P1363 coordinates of `r` and `s`.
pub proof fn lemma_der_signature_converts(form: LengthForm, r: Seq<u8>, s: Seq<u8>)
    requires
        integer_content_ok(r),
        integer_content_ok(s),
        length_fits(form, (der_integer(r) + der_integer(s)).len()),
    ensures
        p1363_of_der(der_signature(form, r, s)) == Some(coordinate(r) + coordinate(s)),
{
    let body = der_integer(r) + der_integer(s);
    let head = seq![0x30u8] + length_octets(form, body.len());
    let der = der_signature(form, r, s);
    assert(der =~= head + der_integer(r) + der_integer(s));
    assert(sequence_header(der) == Some((head.len() as int, body.len() as int))) by {
        assert(der[0] == 0x30);
        match form {
            LengthForm::Short => {
                assert(der[1] == body.len() as u8);
            },
            LengthForm::OneOctet => {
                assert(der[1] == 0x81);
                assert(der[2] == body.len() as u8);
            },
            LengthForm::TwoOctets => {
                assert(der[1] == 0x82);
                assert(der[2] == (body.len() / 256) as u8);
                assert(der[3] == (body.len() % 256) as u8);
            },
        }
    }
    lemma_integer_at_encoded(head, r, der_integer(s));
    assert(head + der_integer(r) + der_integer(s) =~= (head + der_integer(r)) + der_integer(s)
        + Seq::<u8>::empty());
    lemma_integer_at_encoded(head + der_integer(r), s, Seq::<u8>::empty());
}

/// Whatever the conversion accepts is `SEQUENCE { INTEGER r, INTEGER s }` in
/// one of the length forms, and the result is the coordinates of `r` and `s`.
pub proof fn lemma_converted_is_der_signature(der: Seq<u8>)
    requires
        p1363_of_der(der) is Some,
    ensures
        exists|form: LengthForm, r: Seq<u8>, s: Seq<u8>|
            {
                &&& integer_content_ok(r)
                &&& integer_content_ok(s)
                &&& length_fits(form, (der_integer(r) + der_integer(s)).len())
                &&& der == der_signature(form, r, s)
                &&& p1363_of_der(der) == Some(coordinate(r) + coordinate(s))
            },
{
    let (start, n) = sequence_header(der).unwrap();
    let (r, after_r) = integer_at(der, start).unwrap();
    let (s, after_s) = integer_at(der, after_r).unwrap();
    let form = if der[1] < 0x80 {
        LengthForm::Short
    } else if der[1] == 0x81 {
        LengthForm::OneOctet
    } else {
        LengthForm::TwoOctets
    };
    let body = der_integer(r) + der_integer(s);
    assert(der.subrange(start, after_r) =~= der_integer(r));
    assert(der.subrange(after_r, after_s) =~= der_integer(s));
    assert(der.subrange(start, der.len() as int) =~= body);
    assert(body.len() == n);
    assert(der.subrange(0, start) =~= seq![0x30u8] + length_octets(form, body.len())) by {
        if form == LengthForm::TwoOctets {
            assert((der[2] as int * 256 + der[3] as int) / 256 == der[2] as int);
            assert((der[2] as int * 256 + der[3] as int) % 256 == der[3] as int);
        }
    }
    assert(der =~= der.subrange(0, start) + der.subrange(start, der.len() as int));
    assert(der == der_signature(form, r, s));
}

proof fn lemma_magnitude_is_stripped_prefix(v: Seq<u8>) -> (k: int)
    requires
        v.len() >= 1,
    ensures
        0 <= k < v.len(),
        magnitude(v) == v.skip(k),
        forall|i: int| 0 <= i < k ==> v[i] == 0,
        magnitude(v).len() == 1 || magnitude(v)[0] != 0,
    decreases v.len(),
{
    if v.len() > 1 && v[0] == 0 {
        let k1 = lemma_magnitude_is_stripped_prefix(v.drop_first());
        assert(v.drop_first().skip(k1) =~= v.skip(k1 + 1));
        assert forall|i: int| 0 <= i < k1 + 1 implies v[i] == 0 by {
            if i > 0 {
                assert(v.drop_first()[i - 1] == v[i]);
            }
        }
        k1 + 1
    } else {
        assert(v.skip(0) =~= v);
        0
    }
}

proof fn lemma_minimal_content_coordinate(c: Seq<u8>)
    requires
        c.len() == 32,
    ensures
        integer_content_ok(minimal_content(c)),
        coordinate(minimal_content(c)) == c,
        minimal_content(c).len() <= 33,
{
    let k = lemma_magnitude_is_stripped_prefix(c);
    let m = magnitude(c);
    assert(left_padded(m) =~= c);
    if m[0] >= 0x80 {
        let mc = seq![0u8] + m;
        assert(mc.drop_first() =~= m);
        assert(magnitude(mc) == magnitude(m));
        assert(magnitude(m) == m);
    } else {
        let k2 = lemma_magnitude_is_stripped_prefix(m);
        assert(k2 == 0 || m[0] == 0);
        assert(magnitude(m) == m) by {
            if m.len() > 1 {
                assert(m[0] != 0);
            }
        }
    }
}

/// The minimal DER that a platform signer emits for any 64-byte `r‖s` converts
/// back to exactly that `r‖s`.
pub proof fn lemma_minimal_der_round_trip(p: Seq<u8>)
    requires
        p.len() == 64,
    ensures
        p1363_of_der(minimal_der_of(p)) == Some(p),
{
    let r = minimal_content(p.subrange(0, 32));
    let s = minimal_content(p.subrange(32, 64));
    lemma_minimal_content_coordinate(p.subrange(0, 32));
    lemma_minimal_content_coordinate(p.subrange(32, 64));
    lemma_der_signature_converts(LengthForm::Short, r, s);
    assert(p.subrange(0, 32) + p.subrange(32, 64) =~= p);
}

} // verus!
