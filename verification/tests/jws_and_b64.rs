//! Compact JWS assembly and the base64url boundary.

use sign_keypair::b64;
use sign_keypair::jws::{compact, signing_input, PROTECTED_HEADER_JSON};
use sign_keypair::SignerErrorCode;

#[test]
fn the_header_is_the_fixed_es256_header() {
    assert_eq!(PROTECTED_HEADER_JSON, r#"{"alg":"ES256","typ":"JWT"}"#);
}

#[test]
fn signing_input_is_header_dot_payload() {
    let input = signing_input(r#"{"nonce":"abc"}"#);
    assert_eq!(
        input,
        "eyJhbGciOiJFUzI1NiIsInR5cCI6IkpXVCJ9.eyJub25jZSI6ImFiYyJ9"
    );
}

#[test]
fn signing_input_keeps_the_callers_key_order() {
    let a = signing_input(r#"{"b":1,"a":2}"#);
    let b = signing_input(r#"{"a":2,"b":1}"#);
    assert_ne!(a, b);
    let payload_part = a.split('.').nth(1).unwrap();
    assert_eq!(b64::decode(payload_part).unwrap(), br#"{"b":1,"a":2}"#.to_vec());
}

#[test]
fn compact_appends_the_encoded_signature() {
    let input = signing_input("{}");
    let signature = [0xffu8; 64];
    let jws = compact(&input, &signature);
    let parts: Vec<&str> = jws.split('.').collect();
    assert_eq!(parts.len(), 3);
    assert_eq!(format!("{}.{}", parts[0], parts[1]), input);
    assert_eq!(b64::decode(parts[2]).unwrap(), signature.to_vec());
    assert_eq!(parts[2].len(), 86);
}

#[test]
fn encode_is_unpadded_url_safe() {
    assert_eq!(b64::encode(&[0xfb, 0xff]), "-_8");
    assert_eq!(b64::encode(b""), "");
    assert_eq!(b64::encode(b"f"), "Zg");
    assert_eq!(b64::encode(b"foobar"), "Zm9vYmFy");
}

#[test]
fn decode_tolerates_padding_and_round_trips() {
    assert_eq!(b64::decode("Zg").unwrap(), b"f".to_vec());
    assert_eq!(b64::decode("Zg==").unwrap(), b"f".to_vec());
    for bytes in [&b""[..], b"a", b"ab", b"abc", &[0u8, 255, 128, 7][..]] {
        assert_eq!(b64::decode(&b64::encode(bytes)).unwrap(), bytes.to_vec());
    }
}

#[test]
fn decode_rejects_what_is_not_base64url() {
    for bad in ["a", "!!", "ab+c", "Zm9v YmFy", "Zh"] {
        let error = b64::decode(bad).unwrap_err();
        assert_eq!(error.code, SignerErrorCode::KeystoreFailure);
        assert!(error.message.starts_with("Argument is not valid base64url: "));
    }
}

#[test]
fn decode_ignores_any_number_of_appended_pads() {
    for bytes in [&b""[..], b"f", b"fo", b"foo", &[0xfbu8, 0xff][..]] {
        let text = b64::encode(bytes);
        for count in 0..5 {
            let padded = format!("{}{}", text, "=".repeat(count));
            assert_eq!(b64::decode(&padded).unwrap(), bytes.to_vec());
        }
    }
}

#[test]
fn both_signing_input_segments_decode_to_what_was_given() {
    let payload = r#"{"sub":"a/b+c=d","n":1}"#;
    let input = signing_input(payload);
    let (header, body) = input.split_once('.').unwrap();
    for segment in [header, body] {
        assert!(!segment.contains(['.', '=', '+', '/']));
    }
    assert_eq!(b64::decode(header).unwrap(), PROTECTED_HEADER_JSON.as_bytes().to_vec());
    assert_eq!(b64::decode(body).unwrap(), payload.as_bytes().to_vec());
}
