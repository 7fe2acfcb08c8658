//! DER → IEEE P1363 known-answer vectors.
//!
//! These are genuine P-256 signatures from `openssl dgst -sha256 -sign`, chosen
//! to hit the shapes that occur only ~1 time in 256, with each expected P1363
//! value anchored to a third-party verifier rather than to this codec's output.

use sign_keypair::asn1::{der_to_p1363, P1363_LENGTH};
use sign_keypair::SignerErrorCode;

fn hex(s: &str) -> Vec<u8> {
    let s: String = s.chars().filter(|c| !c.is_whitespace()).collect();
    (0..s.len())
        .step_by(2)
        .map(|i| u8::from_str_radix(&s[i..i + 2], 16).unwrap())
        .collect()
}

fn to_hex(b: &[u8]) -> String {
    b.iter().map(|x| format!("{x:02x}")).collect()
}

/// r's magnitude is 31 bytes, so P1363 must LEFT-pad it. The ~1-in-256 case.
#[test]
fn real_signature_with_short_r_is_left_padded() {
    let der = hex(
        "3043021f2952020b371b18ca4929dad12eb900b0ab30354dd7c714387280c2c126e2d\
         f02207d71f47c1b2406eaef13a3f1f7c6d42b0e1f3427c7433b5cb7f4e47458ac9a93",
    );
    let out = der_to_p1363(&der).unwrap();
    assert_eq!(
        to_hex(&out),
        "002952020b371b18ca4929dad12eb900b0ab30354dd7c714387280c2c126e2df\
         7d71f47c1b2406eaef13a3f1f7c6d42b0e1f3427c7433b5cb7f4e47458ac9a93"
            .replace(['\n', ' '], "")
    );
    assert_eq!(out.len(), P1363_LENGTH);
    assert_eq!(out[0], 0x00, "the pad byte must be at the FRONT of r");
}

/// Both components high-bit: DER carries a 0x00 sign byte on each, and
/// neither may survive into P1363.
#[test]
fn real_signature_with_both_high_bit_strips_both_sign_bytes() {
    let der = hex(
        "30460221008ff702c97a2c11fc716b238919cef2bf0896545f8e65e2437cb77c97c2eb6c90\
         022100bd221a344e59eb869cf132f004dba37c2692024546681d46641b235b7a8822c6",
    );
    let out = der_to_p1363(&der).unwrap();
    assert_eq!(out.len(), P1363_LENGTH);
    assert_eq!(out[0], 0x8f, "DER sign byte must not survive into r");
    assert_eq!(out[32], 0xbd, "DER sign byte must not survive into s");
}

#[test]
fn tiny_integers_are_padded_on_the_left() {
    let out = der_to_p1363(&hex("3006020101020102")).unwrap();
    assert_eq!(out.len(), P1363_LENGTH);
    assert_eq!(&out[0..31], &[0u8; 31]);
    assert_eq!(out[31], 1);
    assert_eq!(&out[32..63], &[0u8; 31]);
    assert_eq!(out[63], 2);
}

#[test]
fn accepts_the_long_form_sequence_length() {
    let mut body = vec![0x02, 32];
    body.extend_from_slice(&[0x11; 32]);
    body.push(0x02);
    body.push(32);
    body.extend_from_slice(&[0x22; 32]);
    let mut der = vec![0x30, 0x81, body.len() as u8];
    der.extend_from_slice(&body);

    let out = der_to_p1363(&der).unwrap();
    assert_eq!(&out[0..32], &[0x11; 32]);
    assert_eq!(&out[32..64], &[0x22; 32]);
}

#[test]
fn output_is_always_exactly_64_bytes() {
    for input in [
        "3043021f2952020b371b18ca4929dad12eb900b0ab30354dd7c714387280c2c126e2d\
         f02207d71f47c1b2406eaef13a3f1f7c6d42b0e1f3427c7433b5cb7f4e47458ac9a93",
        "3006020101020102",
        "3006020100020101",
    ] {
        let der = hex(&input.replace(['\n', ' '], ""));
        assert_eq!(der_to_p1363(&der).unwrap().len(), P1363_LENGTH, "{input}");
    }
}

/// Must fail cleanly rather than panic on a slice index.
#[test]
fn malformed_inputs_are_rejected() {
    let cases = [
        ("", "empty buffer"),
        ("30", "SEQUENCE tag with no length"),
        ("3006", "length with no body"),
        ("30060201", "SEQUENCE length disagrees with the buffer"),
        ("3106020101020102", "wrong outer tag (SET, not SEQUENCE)"),
        ("3006030101020102", "wrong inner tag (BIT STRING)"),
        ("3008020101020102", "declared length overruns the buffer"),
        ("3004020101020102", "declared length undershoots the buffer"),
        ("3006022001020102", "INTEGER length overruns the buffer"),
        ("300602810102010201", "long-form INTEGER length"),
        ("3006020001020102", "zero-length INTEGER"),
        ("300402000200", "both INTEGERs zero-length"),
        ("3009020101020102aabbcc", "trailing bytes after s"),
    ];
    for (input, why) in cases {
        assert!(
            der_to_p1363(&hex(input)).is_err(),
            "expected a rejection for {why}"
        );
    }
}

#[test]
fn every_rejection_is_a_keystore_failure() {
    for input in ["", "30", "3106020101020102", "3009020101020102aabbcc", "3081"] {
        let error = der_to_p1363(&hex(input)).unwrap_err();
        assert_eq!(error.code, SignerErrorCode::KeystoreFailure);
        assert_eq!(error.raw_code, "keystore_failure");
    }
}

#[test]
fn rejection_messages_name_the_problem() {
    assert_eq!(
        der_to_p1363(&hex("3009020101020102aabbcc")).unwrap_err().message,
        "3 trailing byte(s) after s"
    );
    assert_eq!(
        der_to_p1363(&hex("3083")).unwrap_err().message,
        "Unsupported DER length form (3 octets)"
    );
    assert_eq!(
        der_to_p1363(&hex("30")).unwrap_err().message,
        "Truncated DER signature: expected SEQUENCE length"
    );
    assert_eq!(
        der_to_p1363(&hex("3006020001020102")).unwrap_err().message,
        "Zero-length DER INTEGER for r"
    );
}

#[test]
fn a_magnitude_over_32_bytes_is_rejected_but_redundant_zeros_are_not() {
    // 33 significant bytes: too long for a P-256 coordinate.
    let mut body = vec![0x02, 33, 0x01];
    body.extend_from_slice(&[0x00; 32]);
    body.extend_from_slice(&[0x02, 0x01, 0x01]);
    let mut der = vec![0x30, body.len() as u8];
    der.extend_from_slice(&body);
    let error = der_to_p1363(&der).unwrap_err();
    assert_eq!(error.message, "ECDSA integer longer than 32 bytes");

    // Redundant leading zeros are stripped, whatever their number.
    let mut body = vec![0x02, 40];
    body.extend_from_slice(&[0x00; 39]);
    body.push(0x07);
    body.extend_from_slice(&[0x02, 0x01, 0x09]);
    let mut der = vec![0x30, 0x82, 0x00, body.len() as u8];
    der.extend_from_slice(&body);
    let out = der_to_p1363(&der).unwrap();
    assert_eq!(out[31], 0x07);
    assert_eq!(out[63], 0x09);
    assert!(out[..31].iter().all(|b| *b == 0));
}

/// The minimal DER of any r‖s converts back to exactly that r‖s.
#[test]
fn minimal_der_round_trips() {
    for (r_top, s_top) in [(0x00u8, 0x80u8), (0x7f, 0x01), (0xff, 0x00)] {
        let mut p = vec![0x5au8; 64];
        p[0] = r_top;
        p[32] = s_top;
        let mut der_body = Vec::new();
        for half in [&p[..32], &p[32..]] {
            let mut m: Vec<u8> = half.iter().copied().skip_while(|b| *b == 0).collect();
            if m.is_empty() {
                m.push(0);
            }
            if m[0] >= 0x80 {
                m.insert(0, 0);
            }
            der_body.push(0x02);
            der_body.push(m.len() as u8);
            der_body.extend_from_slice(&m);
        }
        let mut der = vec![0x30, der_body.len() as u8];
        der.extend_from_slice(&der_body);
        assert_eq!(der_to_p1363(&der).unwrap(), p);
    }
}
