use vstd::prelude::*;

use crate::api_response::ApiResponse;
use crate::bearer::{
    candidate_token, extract_bearer_token, lemma_bearer_header_extracts, whitespace_free,
};
use crate::claims::{Claims, VALIDITY_WINDOW_SECS};
use crate::errors::{auth_error_response, AuthError};
use crate::jwt::{accepted_claims, decode_jwt, lemma_token_round_trip, signed_token};

verus! {

/// What the authentication gate decides for one request: hand the
/// authenticated claims on, or short-circuit with the response to send.
#[derive(Debug)]
pub enum AuthOutcome {
    /// The token decoded; downstream handlers receive these claims.
    Authorized(Claims),
    /// The request is turned away with this response and no handler runs.
    Rejected(ApiResponse),
}

/// The per-request authentication gate. A request without an
/// `Authorization` header is turned away as unauthorized; otherwise the
/// bearer token is cut out of the header and decoded under the configured
/// secret, and either the claims continue to the handler or the request is
/// turned away with the deliberately uninformative invalid-token answer.
pub fn check_auth_middleware(header: Option<&str>, secret: &str) -> (r: AuthOutcome)
    ensures
        match header {
            None => (r matches AuthOutcome::Rejected(resp) && resp.status_code == 401
                && resp.body@ == "Unauthorized"@),
            Some(h) => match r {
                AuthOutcome::Authorized(c) => accepted_claims(c, candidate_token(h@), secret@),
                AuthOutcome::Rejected(resp) => resp.status_code == 401
                    && resp.body@ == "Invalid token"@,
            },
        },
{
    match header {
        None => AuthOutcome::Rejected(auth_error_response(AuthError::MissingCredentials)),
        Some(h) => {
            let token = extract_bearer_token(h);
            match decode_jwt(token.as_str(), secret) {
                Ok(c) => AuthOutcome::Authorized(c),
                Err(e) => AuthOutcome::Rejected(auth_error_response(e)),
            }
        },
    }
}

/// A freshly signed token, nonempty and whitespace-free as signing
/// leaves it, survives bearer-header framing: the decoder receives it
/// unchanged, and any claims accepted from that header carry the signed
/// identity — matching email and id, issued-at strictly before the
/// expiry, and an expiry exactly one validity window after issuance.
pub proof fn lemma_fresh_bearer_authorized(
    c: Claims,
    token: Seq<char>,
    email: Seq<char>,
    id: int,
    iat: int,
    secret: Seq<char>,
)
    requires
        whitespace_free(token),
        token == signed_token(email, id, iat, iat + VALIDITY_WINDOW_SECS, secret),
        accepted_claims(c, candidate_token("Bearer "@ + token), secret),
    ensures
        candidate_token("Bearer "@ + token) == token,
        c.email@ == email,
        c.id as int == id,
        c.iat as int == iat,
        c.exp as int == iat + VALIDITY_WINDOW_SECS,
        c.iat < c.exp,
{
    lemma_bearer_header_extracts(token);
    lemma_token_round_trip(c, token, email, id, iat, secret);
}

} // verus!
