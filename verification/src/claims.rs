use vstd::prelude::*;

use crate::errors::AuthError;

verus! {

/// Seconds for which a freshly issued token is valid: 24 hours.
pub const VALIDITY_WINDOW_SECS: u64 = 24 * 60 * 60;

/// The signed token payload: the authenticated identity and its validity
/// window. The token is the whole session state; the server keeps nothing.
#[derive(Debug, Clone)]
pub struct Claims {
    /// Expiration time, seconds since the Unix epoch.
    pub exp: u64,
    /// Issued-at time, seconds since the Unix epoch.
    pub iat: u64,
    /// Email of the authenticated subject.
    pub email: String,
    /// Numeric identifier of the authenticated subject.
    pub id: i32,
}

/// The claims value carries exactly the given fields.
pub open spec fn claims_match(c: Claims, email: Seq<char>, id: int, iat: int, exp: int) -> bool {
    c.email@ == email && c.id as int == id && c.iat as int == iat && c.exp as int == exp
}

/// A claims value as issuance produces it: expiring exactly one validity
/// window after it was issued.
pub open spec fn claims_well_formed(c: Claims) -> bool {
    c.iat < c.exp && c.exp - c.iat == VALIDITY_WINDOW_SECS
}

impl Claims {
    /// Claims for a subject authenticated at `now`: issued then, expiring
    /// one validity window later.
    pub fn issue(email: String, id: i32, now: u64) -> (c: Claims)
        requires
            now + VALIDITY_WINDOW_SECS <= u64::MAX,
        ensures
            claims_match(c, email@, id as int, now as int, now + VALIDITY_WINDOW_SECS),
            claims_well_formed(c),
    {
        Claims { exp: now + VALIDITY_WINDOW_SECS, iat: now, email, id }
    }

    /// Hand the claims that the middleware attached to the request context
    /// back to the handler. A context that no middleware filled is a
    /// route-wiring error, never a client condition.
    pub fn from_request(context: Option<&Claims>) -> (r: Result<Claims, AuthError>)
        ensures
            match context {
                Some(c) => (r matches Ok(out)
                    && claims_match(out, c.email@, c.id as int, c.iat as int, c.exp as int)),
                None => r matches Err(e) && e == AuthError::WiringError,
            },
    {
        match context {
            Some(c) => Ok(Claims { exp: c.exp, iat: c.iat, email: c.email.clone(), id: c.id }),
            None => Err(AuthError::WiringError),
        }
    }
}

} // verus!
