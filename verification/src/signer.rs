//! The signer: from a secret key and a set of claims to a signed token.
//!
//! A token is three dot-separated parts: the base64 of a fixed header, the
//! base64 of the claims written as JSON, and the base64 of the HMAC-SHA256 tag
//! of the first two parts under the secret key. Everything but the tag is
//! computed and proved here; the tag comes from the `hmac` and `sha2` crates.

use crate::encoding::{
    base64url, base64url_chars, decimal, lemma_base64url_injective, lemma_base64url_shape,
    lemma_cut_at_separator, lemma_decimal_injective, lemma_decimal_shape, push_decimal,
};
use hmac::digest::InvalidLength;
use hmac::Mac;
use vstd::prelude::*;
use vstd::string::*;
use vstd::utf8::*;

verus! {

/// Why no token could be handed out.
#[derive(Debug, Clone, Copy, PartialEq, Eq, Structural)]
pub enum AuthError {
    /// The keyed signature could not be computed.
    SigningFailed,
}

/// What a token asserts: when it was issued and when it expires, both in
/// seconds since the Unix epoch.
#[derive(Debug, Clone, Copy, PartialEq, Eq, Structural)]
pub struct Claims {
    pub issued_at: i64,
    pub expires_at: i128,
}

/// The error with which the `hmac` crate refuses a key.
#[verifier::external_type_specification]
#[verifier::external_body]
pub struct ExInvalidLength(InvalidLength);

/// The HMAC-SHA256 tag of `message` under `key`, or `None` where the key is
/// refused.
pub uninterp spec fn hmac_sha256_tag(key: Seq<u8>, message: Seq<u8>) -> Option<Seq<u8>>;

/// The header of every token, as JSON.
pub open spec fn header_json() -> Seq<char> {
    "{\"typ\":\"JWT\",\"alg\":\"HS256\"}"@
}

/// The claims as JSON.
pub open spec fn payload_json(claims: Claims) -> Seq<char> {
    "{\"iat\":"@ + decimal(claims.issued_at as int) + ",\"exp\":"@ + decimal(
        claims.expires_at as int,
    ) + "}"@
}

/// The part of a token that is signed: header and claims, each in base64,
/// with a dot between them.
pub open spec fn signing_input(claims: Claims) -> Seq<char> {
    base64url_chars(encode_utf8(header_json())).push('.') + base64url_chars(
        encode_utf8(payload_json(claims)),
    )
}

/// A signing input followed by a dot and the base64 of its tag.
pub open spec fn token_with_tag(input: Seq<char>, tag: Seq<u8>) -> Seq<char> {
    input.push('.') + base64url_chars(tag)
}

/// The token for `claims` under `secret_key`, or `None` where the key is
/// refused.
pub open spec fn signed_token(claims: Claims, secret_key: Seq<char>) -> Option<Seq<char>> {
    match hmac_sha256_tag(encode_utf8(secret_key), encode_utf8(signing_input(claims))) {
        Some(tag) => Some(token_with_tag(signing_input(claims), tag)),
        None => None,
    }
}

/// What `sign` returns, over views.
pub open spec fn sign_result(claims: Claims, secret_key: Seq<char>) -> Result<
    Seq<char>,
    AuthError,
> {
    match signed_token(claims, secret_key) {
        Some(token) => Ok(token),
        None => Err(AuthError::SigningFailed),
    }
}

/// A token result with the token taken by its view.
pub open spec fn token_view(result: Result<String, AuthError>) -> Result<Seq<char>, AuthError> {
    match result {
        Ok(token) => Ok(token@),
        Err(e) => Err(e),
    }
}

/// Calls `Hmac::<Sha256>::new_from_slice`, `update` and `finalize` of the
/// `hmac` crate: the tag of `message` under `key`, or the error with which the
/// crate refused the key. The contract only gives the outcome its name.
#[verifier::external_body]
fn hmac_sha256(key: &[u8], message: &[u8]) -> (outcome: Result<Vec<u8>, InvalidLength>)
    ensures
        match outcome {
            Ok(tag) => hmac_sha256_tag(key@, message@) == Some(tag@),
            Err(_) => hmac_sha256_tag(key@, message@) is None,
        },
{
    let mut mac = hmac::Hmac::<sha2::Sha256>::new_from_slice(key)?;
    mac.update(message);
    Ok(mac.finalize().into_bytes().to_vec())
}

/// Writes the claims as JSON.
pub fn payload(claims: &Claims) -> (json: String)
    ensures
        json@ == payload_json(*claims),
{
    let mut json: String = String::from_str("{\"iat\":");
    push_decimal(&mut json, claims.issued_at as i128);
    json.append(",\"exp\":");
    push_decimal(&mut json, claims.expires_at);
    json.append("}");
    json
}

/// Builds the part of the token that is signed.
pub fn unsigned_token(claims: &Claims) -> (input: String)
    ensures
        input@ == signing_input(*claims),
{
    let header: &str = "{\"typ\":\"JWT\",\"alg\":\"HS256\"}";
    let mut input: String = base64url(header.as_bytes());
    input.append(".");
    let json: String = payload(claims);
    let body: String = base64url(json.as_str().as_bytes());
    input.append(body.as_str());
    proof {
        reveal_strlit(".");
    }
    input
}

/// Completes a token from its signing input and the outcome of the tag
/// computation: the input, a dot and the tag in base64, or `SigningFailed`
/// where no tag was computed.
pub fn seal(input: String, outcome: Result<Vec<u8>, InvalidLength>) -> (result: Result<
    String,
    AuthError,
>)
    ensures
        match outcome {
            Ok(tag) => token_view(result) == Ok::<Seq<char>, AuthError>(
                token_with_tag(input@, tag@),
            ),
            Err(_) => result == Err::<String, AuthError>(AuthError::SigningFailed),
        },
{
    match outcome {
        Ok(tag) => {
            let mut token: String = input;
            token.append(".");
            let signature: String = base64url(tag.as_slice());
            token.append(signature.as_str());
            proof {
                reveal_strlit(".");
                assert(token@ =~= token_with_tag(input@, tag@));
            }
            Ok(token)
        },
        Err(_) => Err(AuthError::SigningFailed),
    }
}

/// Signs `claims` with `secret_key`: the same claims and key always give the
/// same token.
pub fn sign(claims: &Claims, secret_key: &str) -> (result: Result<String, AuthError>)
    ensures
        token_view(result) == sign_result(*claims, secret_key@),
{
    let input: String = unsigned_token(claims);
    let outcome = hmac_sha256(secret_key.as_bytes(), input.as_str().as_bytes());
    seal(input, outcome)
}

/// The claims can be read off their JSON: two sets of claims with the same
/// JSON are the same.
pub proof fn lemma_payload_json_injective(c1: Claims, c2: Claims)
    requires
        payload_json(c1) == payload_json(c2),
    ensures
        c1 == c2,
{
    reveal_strlit("{\"iat\":");
    reveal_strlit(",\"exp\":");
    reveal_strlit("}");
    let opening = "{\"iat\":"@;
    let middle = ",\"exp\":"@;
    let closing = "}"@;
    let i1 = decimal(c1.issued_at as int);
    let i2 = decimal(c2.issued_at as int);
    let e1 = decimal(c1.expires_at as int);
    let e2 = decimal(c2.expires_at as int);
    lemma_decimal_shape(c1.issued_at as int);
    lemma_decimal_shape(c2.issued_at as int);
    let t1 = middle.skip(1) + e1 + closing;
    let t2 = middle.skip(1) + e2 + closing;
    assert(i1.push(',') + t1 =~= payload_json(c1).skip(opening.len() as int));
    assert(i2.push(',') + t2 =~= payload_json(c2).skip(opening.len() as int));
    lemma_cut_at_separator(i1, t1, i2, t2, ',');
    lemma_decimal_injective(c1.issued_at as int, c2.issued_at as int);
    assert(e1 + closing =~= t1.skip(middle.len() - 1));
    assert(e2 + closing =~= t2.skip(middle.len() - 1));
    assert(e1 =~= (e1 + closing).take(e1.len() as int));
    assert(e2 =~= (e2 + closing).take(e2.len() as int));
    lemma_decimal_injective(c1.expires_at as int, c2.expires_at as int);
}

/// The claims can be read off the signing input.
pub proof fn lemma_signing_input_injective(c1: Claims, c2: Claims)
    requires
        signing_input(c1) == signing_input(c2),
    ensures
        c1 == c2,
{
    let header = base64url_chars(encode_utf8(header_json()));
    let body1 = base64url_chars(encode_utf8(payload_json(c1)));
    let body2 = base64url_chars(encode_utf8(payload_json(c2)));
    lemma_base64url_shape(encode_utf8(header_json()));
    lemma_cut_at_separator(header, body1, header, body2, '.');
    lemma_base64url_injective(encode_utf8(payload_json(c1)), encode_utf8(payload_json(c2)));
    encode_utf8_decode_utf8(payload_json(c1));
    encode_utf8_decode_utf8(payload_json(c2));
    lemma_payload_json_injective(c1, c2);
}

/// The claims can be read off a token, whatever the key: two tokens that are
/// the same text carry the same claims.
pub proof fn lemma_signed_token_injective(
    c1: Claims,
    key1: Seq<char>,
    c2: Claims,
    key2: Seq<char>,
)
    requires
        signed_token(c1, key1) is Some,
        signed_token(c1, key1) == signed_token(c2, key2),
    ensures
        c1 == c2,
{
    let header = base64url_chars(encode_utf8(header_json()));
    let body1 = base64url_chars(encode_utf8(payload_json(c1)));
    let body2 = base64url_chars(encode_utf8(payload_json(c2)));
    let tag1 = hmac_sha256_tag(encode_utf8(key1), encode_utf8(signing_input(c1)))->0;
    let tag2 = hmac_sha256_tag(encode_utf8(key2), encode_utf8(signing_input(c2)))->0;
    let s1 = base64url_chars(tag1);
    let s2 = base64url_chars(tag2);
    lemma_base64url_shape(encode_utf8(header_json()));
    lemma_base64url_shape(encode_utf8(payload_json(c1)));
    lemma_base64url_shape(encode_utf8(payload_json(c2)));
    assert(signed_token(c1, key1)->0 =~= header.push('.') + (body1.push('.') + s1));
    assert(signed_token(c2, key2)->0 =~= header.push('.') + (body2.push('.') + s2));
    lemma_cut_at_separator(header, body1.push('.') + s1, header, body2.push('.') + s2, '.');
    lemma_cut_at_separator(body1, s1, body2, s2, '.');
    lemma_signing_input_injective(c1, c2);
}

} // verus!
