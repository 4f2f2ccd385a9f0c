use vstd::prelude::*;

use crate::api_response::ApiResponse;

verus! {

/// The failure kinds of the authentication core.
#[derive(Clone, Copy, Debug, PartialEq, Eq, Structural)]
pub enum AuthError {
    /// No `Authorization` header was presented.
    MissingCredentials,
    /// The bearer token failed signature, structural or expiry checks;
    /// the kinds are deliberately not told apart.
    InvalidToken,
    /// Claims were asked of a request context that no middleware filled:
    /// a route-wiring bug, not a client error.
    WiringError,
    /// A required configuration variable is absent or unusable.
    ConfigMissing,
    /// The signing key could not produce a token.
    SigningFailure,
}

/// The response with which each failure kind answers the request: the
/// credential failures as the middleware sends them, deliberately generic;
/// the wiring failure as the extractor reports it; and the server-side
/// kinds as plain internal errors.
pub fn auth_error_response(e: AuthError) -> (r: ApiResponse)
    ensures
        r.status_code == match e {
            AuthError::MissingCredentials => 401u16,
            AuthError::InvalidToken => 401u16,
            AuthError::WiringError => 400u16,
            AuthError::ConfigMissing => 500u16,
            AuthError::SigningFailure => 500u16,
        },
        r.body@ == match e {
            AuthError::MissingCredentials => "Unauthorized"@,
            AuthError::InvalidToken => "Invalid token"@,
            AuthError::WiringError => "Bad Claims"@,
            AuthError::ConfigMissing => "Incomplete configuration"@,
            AuthError::SigningFailure => "Failed to sign token"@,
        },
{
    match e {
        AuthError::MissingCredentials => ApiResponse::new(401, "Unauthorized".to_owned()),
        AuthError::InvalidToken => ApiResponse::new(401, "Invalid token".to_owned()),
        AuthError::WiringError => ApiResponse::new(400, "Bad Claims".to_owned()),
        AuthError::ConfigMissing => ApiResponse::new(500, "Incomplete configuration".to_owned()),
        AuthError::SigningFailure => ApiResponse::new(500, "Failed to sign token".to_owned()),
    }
}

} // verus!
