use vstd::prelude::*;

use crate::bearer::whitespace_free;
use crate::claims::{claims_match, Claims, VALIDITY_WINDOW_SECS};
use crate::errors::AuthError;

verus! {

/// The compact token that signing the given claim fields with the given
/// secret produces.
pub uninterp spec fn signed_token(
    email: Seq<char>,
    id: int,
    iat: int,
    exp: int,
    secret: Seq<char>,
) -> Seq<char>;

/// What holds of any claims value the decoder hands out for `token` under
/// `secret`: wherever the token is one that signing produced under that
/// secret, the claims are exactly the fields that were signed into it.
pub open spec fn accepted_claims(c: Claims, token: Seq<char>, secret: Seq<char>) -> bool {
    forall|email: Seq<char>, id: int, iat: int, exp: int|
        token == #[trigger] signed_token(email, id, iat, exp, secret)
            ==> claims_match(c, email, id, iat, exp)
}

/// Relies on jsonwebtoken::encode with the default header (HS256): the
/// compact token is a deterministic function of the claim fields and the
/// secret alone; signing with an HMAC key taken `from_secret` cannot fail
/// (HMAC accepts keys of any length, and the header and claims map always
/// serialize); and the token is base64url segments joined by dots, so it
/// is nonempty and free of whitespace.
#[verifier::external_body]
fn sign_claims(claims: &Claims, secret: &str) -> (r: Option<String>)
    ensures
        r is Some,
        r matches Some(t) ==> t@ == signed_token(
            claims.email@,
            claims.id as int,
            claims.iat as int,
            claims.exp as int,
            secret@,
        ),
        r matches Some(t) ==> whitespace_free(t@),
{
    let mut payload = serde_json::Map::new();
    payload.insert("email".to_owned(), serde_json::Value::from(claims.email.clone()));
    payload.insert("exp".to_owned(), serde_json::Value::from(claims.exp));
    payload.insert("iat".to_owned(), serde_json::Value::from(claims.iat));
    payload.insert("id".to_owned(), serde_json::Value::from(claims.id));
    let key = jsonwebtoken::EncodingKey::from_secret(secret.as_bytes());
    jsonwebtoken::encode(&jsonwebtoken::Header::default(), &payload, &key).ok()
}

/// Relies on jsonwebtoken::decode with the default validation (HS256 only,
/// expiry required and enforced against the real clock with the default
/// leeway): a successful decode hands back the claim fields carried by the
/// token's payload, so a token that was produced by signing given fields
/// under this secret decodes to exactly those fields.
#[verifier::external_body]
fn verify_token(token: &str, secret: &str) -> (r: Option<Claims>)
    ensures
        r matches Some(c) ==> accepted_claims(c, token@, secret@),
{
    let key = jsonwebtoken::DecodingKey::from_secret(secret.as_bytes());
    let data = jsonwebtoken::decode::<serde_json::Value>(
        token,
        &key,
        &jsonwebtoken::Validation::default(),
    ).ok()?;
    let email = data.claims.get("email")?.as_str()?.to_owned();
    let id = i32::try_from(data.claims.get("id")?.as_i64()?).ok()?;
    let iat = data.claims.get("iat")?.as_u64()?;
    let exp = data.claims.get("exp")?.as_u64()?;
    Some(Claims { exp, iat, email, id })
}

/// Relies on chrono::Utc::now for the seconds since the Unix epoch; nothing
/// is promised of the clock's reading.
#[verifier::external_body]
fn current_unix_time() -> i64 {
    chrono::Utc::now().timestamp()
}

/// Sign a token for the subject `(email, id)`, issued at the present clock
/// reading and valid for one window. Issuance succeeds for every email and
/// id: symmetric signing has no failing inputs.
pub fn encode_jwt(email: String, id: i32, secret: &str) -> (r: Result<String, AuthError>)
    ensures
        r is Ok,
        r matches Ok(t) ==> (exists|iat: int|
            0 <= iat && #[trigger] signed_token(
                email@,
                id as int,
                iat,
                iat + VALIDITY_WINDOW_SECS,
                secret@,
            ) == t@) && whitespace_free(t@),
{
    let raw = current_unix_time();
    let now: u64 = if raw < 0 { 0 } else { raw as u64 };
    let claims = Claims::issue(email, id, now);
    match sign_claims(&claims, secret) {
        Some(t) => {
            proof {
                assert(signed_token(
                    claims.email@,
                    claims.id as int,
                    claims.iat as int,
                    claims.exp as int,
                    secret@,
                ) == t@);
            }
            Ok(t)
        },
        None => Err(AuthError::SigningFailure),
    }
}

/// Decode and validate a bearer token under the given secret. Every failure
/// — forged signature, malformed structure, passed expiry — is the one
/// opaque `InvalidToken` kind, by design.
pub fn decode_jwt(token: &str, secret: &str) -> (r: Result<Claims, AuthError>)
    ensures
        r matches Ok(c) ==> accepted_claims(c, token@, secret@),
        r matches Err(e) ==> e == AuthError::InvalidToken,
{
    match verify_token(token, secret) {
        Some(c) => Ok(c),
        None => Err(AuthError::InvalidToken),
    }
}

/// Round trip of the codec: claims that the decoder accepts from a token
/// that was signed for `(email, id)` at `iat` carry that email and id, an
/// issued-at strictly before the expiry, and an expiry exactly one
/// validity window after issuance.
pub proof fn lemma_token_round_trip(
    c: Claims,
    token: Seq<char>,
    email: Seq<char>,
    id: int,
    iat: int,
    secret: Seq<char>,
)
    requires
        token == signed_token(email, id, iat, iat + VALIDITY_WINDOW_SECS, secret),
        accepted_claims(c, token, secret),
    ensures
        c.email@ == email,
        c.id as int == id,
        c.iat as int == iat,
        c.exp as int == iat + VALIDITY_WINDOW_SECS,
        c.iat < c.exp,
{
    assert(claims_match(c, email, id, iat, iat + VALIDITY_WINDOW_SECS));
}

} // verus!
