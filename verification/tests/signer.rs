use blobscan_client::encoding::{base64url, push_decimal};
use blobscan_client::signer::{payload, seal, sign, unsigned_token, AuthError, Claims};

const HEADER: &str = "eyJ0eXAiOiJKV1QiLCJhbGciOiJIUzI1NiJ9";

#[test]
fn base64url_matches_the_standard_vectors() {
    assert_eq!(base64url(b""), "");
    assert_eq!(base64url(b"f"), "Zg");
    assert_eq!(base64url(b"fo"), "Zm8");
    assert_eq!(base64url(b"foo"), "Zm9v");
    assert_eq!(base64url(b"foob"), "Zm9vYg");
    assert_eq!(base64url(b"fooba"), "Zm9vYmE");
    assert_eq!(base64url(b"foobar"), "Zm9vYmFy");
}

#[test]
fn base64url_uses_the_url_safe_characters() {
    assert_eq!(base64url(&[0xfb, 0xff, 0xfe]), "-__-");
    assert_eq!(base64url(&[0xff, 0xef]), "_-8");
}

#[test]
fn decimal_text_of_integers() {
    let mut out = String::from("n=");
    push_decimal(&mut out, 0);
    assert_eq!(out, "n=0");
    let mut out = String::new();
    push_decimal(&mut out, 1_700_000_000);
    assert_eq!(out, "1700000000");
    let mut out = String::new();
    push_decimal(&mut out, -42);
    assert_eq!(out, "-42");
    let mut out = String::new();
    push_decimal(&mut out, i128::MAX);
    assert_eq!(out, "170141183460469231731687303715884105727");
    let mut out = String::new();
    push_decimal(&mut out, i128::MIN);
    assert_eq!(out, "-170141183460469231731687303715884105728");
}

#[test]
fn payload_is_compact_json() {
    let claims = Claims { issued_at: 1_700_000_000, expires_at: 1_700_001_800 };
    assert_eq!(payload(&claims), "{\"iat\":1700000000,\"exp\":1700001800}");
    let claims = Claims { issued_at: -5, expires_at: 5 };
    assert_eq!(payload(&claims), "{\"iat\":-5,\"exp\":5}");
}

#[test]
fn unsigned_token_is_header_dot_payload() {
    let claims = Claims { issued_at: 1_700_000_000, expires_at: 1_700_001_800 };
    assert_eq!(
        unsigned_token(&claims),
        format!("{}.eyJpYXQiOjE3MDAwMDAwMDAsImV4cCI6MTcwMDAwMTgwMH0", HEADER)
    );
}

#[test]
fn sign_gives_the_expected_token() {
    let claims = Claims { issued_at: 1_700_000_000, expires_at: 1_700_001_800 };
    assert_eq!(
        sign(&claims, "secret"),
        Ok(format!(
            "{}.eyJpYXQiOjE3MDAwMDAwMDAsImV4cCI6MTcwMDAwMTgwMH0.HkLjqhfFAOpc4CdIjN595TQLdHyiUhWFr_sbidZsLiU",
            HEADER
        ))
    );
}

#[test]
fn sign_accepts_an_empty_key_and_negative_times() {
    assert_eq!(
        sign(&Claims { issued_at: 0, expires_at: 0 }, ""),
        Ok(format!(
            "{}.eyJpYXQiOjAsImV4cCI6MH0.EIjgBiYcFCZwtjLNTH6dfROzxQuOaGoh3djmFYxhfqg",
            HEADER
        ))
    );
    assert_eq!(
        sign(&Claims { issued_at: -5, expires_at: 5 }, "k"),
        Ok(format!(
            "{}.eyJpYXQiOi01LCJleHAiOjV9.SnuiExqRCnkNHGPLM1uzoYJ3uIlb68X3xE1tWpZTIvE",
            HEADER
        ))
    );
}

#[test]
fn sign_is_deterministic_and_depends_on_key_and_claims() {
    let claims = Claims { issued_at: 10, expires_at: 20 };
    let other = Claims { issued_at: 11, expires_at: 21 };
    assert_eq!(sign(&claims, "secret"), sign(&claims, "secret"));
    assert_ne!(sign(&claims, "secret"), sign(&other, "secret"));
    assert_ne!(sign(&claims, "secret"), sign(&claims, "Secret"));
}

#[test]
fn seal_appends_the_tag_in_base64() {
    assert_eq!(seal(String::from("a.b"), Ok(vec![0xff, 0xef])), Ok(String::from("a.b._-8")));
    assert_eq!(seal(String::from("a.b"), Ok(Vec::new())), Ok(String::from("a.b.")));
}

#[test]
fn seal_reports_a_refused_key_as_signing_failed() {
    assert_eq!(
        seal(String::from("a.b"), Err(hmac::digest::InvalidLength)),
        Err(AuthError::SigningFailed)
    );
}

#[test]
fn signed_token_verifies_under_its_key() {
    let claims = Claims { issued_at: 1_700_000_000, expires_at: 4_102_444_800 };
    let token = sign(&claims, "secret").expect("a token");
    let validation = jsonwebtoken::Validation::new(jsonwebtoken::Algorithm::HS256);
    let decoded = jsonwebtoken::decode::<serde_json::Value>(
        &token,
        &jsonwebtoken::DecodingKey::from_secret(b"secret"),
        &validation,
    )
    .expect("the token verifies under the key");
    assert_eq!(decoded.header.alg, jsonwebtoken::Algorithm::HS256);
    assert_eq!(decoded.header.typ, Some(String::from("JWT")));
    assert_eq!(decoded.claims.get("iat").and_then(|v| v.as_i64()), Some(1_700_000_000));
    assert_eq!(decoded.claims.get("exp").and_then(|v| v.as_i64()), Some(4_102_444_800));
    let forged = jsonwebtoken::decode::<serde_json::Value>(
        &token,
        &jsonwebtoken::DecodingKey::from_secret(b"another"),
        &validation,
    );
    assert!(forged.is_err());
}
