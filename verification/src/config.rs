use vstd::prelude::*;

use crate::errors::AuthError;
use crate::numbers::{parse_u16, spec_parse_u16};

verus! {

/// The process-wide configuration: where to listen, where the database
/// lives, and the token-signing secret. It is resolved once from an
/// environment snapshot and read-only from then on.
#[derive(Debug)]
pub struct AppConfig {
    /// Host address the server binds to.
    pub host_address: String,
    /// Port the server binds to.
    pub port: u16,
    /// Connection string of the relational store.
    pub database_url: String,
    /// Symmetric key that signs and verifies bearer tokens.
    pub secret: String,
}

/// The configuration that a given environment snapshot resolves to:
/// the address as given or loopback, the port read as a decimal, and the
/// database URL and secret exactly as given.
pub open spec fn config_resolves(
    c: AppConfig,
    address: Option<Seq<char>>,
    port: Option<Seq<char>>,
    database_url: Option<Seq<char>>,
    secret: Option<Seq<char>>,
) -> bool {
    &&& c.host_address@ == match address {
        Some(a) => a,
        None => "127.0.0.1"@,
    }
    &&& match port {
        Some(p) => spec_parse_u16(p) == Some(c.port),
        None => false,
    }
    &&& match database_url {
        Some(u) => c.database_url@ == u,
        None => false,
    }
    &&& match secret {
        Some(s) => c.secret@ == s,
        None => false,
    }
}

/// Whether an environment snapshot carries everything a configuration
/// needs: a parsable port, a database URL and a secret.
pub open spec fn config_complete(
    port: Option<Seq<char>>,
    database_url: Option<Seq<char>>,
    secret: Option<Seq<char>>,
) -> bool {
    &&& match port {
        Some(p) => spec_parse_u16(p) is Some,
        None => false,
    }
    &&& database_url is Some
    &&& secret is Some
}

/// The listen address resolved from its environment value: the value as
/// given, or loopback where none is set.
pub fn set_host_address(address: Option<String>) -> (r: String)
    ensures
        match address {
            Some(a) => r@ == a@,
            None => r@ == "127.0.0.1"@,
        },
{
    match address {
        Some(a) => a,
        None => "127.0.0.1".to_owned(),
    }
}

/// The listen port resolved from its environment value; a missing or
/// non-numeric value is fatal configuration.
pub fn set_port(port: Option<&str>) -> (r: Result<u16, AuthError>)
    ensures
        match port {
            Some(p) => match spec_parse_u16(p@) {
                Some(v) => r matches Ok(x) && x == v,
                None => r matches Err(e) && e == AuthError::ConfigMissing,
            },
            None => r matches Err(e) && e == AuthError::ConfigMissing,
        },
{
    match port {
        Some(p) => match parse_u16(p) {
            Some(v) => Ok(v),
            None => Err(AuthError::ConfigMissing),
        },
        None => Err(AuthError::ConfigMissing),
    }
}

/// The database URL resolved from its environment value; a missing value
/// is fatal configuration.
pub fn set_database_url(database_url: Option<String>) -> (r: Result<String, AuthError>)
    ensures
        match database_url {
            Some(u) => r matches Ok(s) && s@ == u@,
            None => r matches Err(e) && e == AuthError::ConfigMissing,
        },
{
    match database_url {
        Some(u) => Ok(u),
        None => Err(AuthError::ConfigMissing),
    }
}

/// The signing secret resolved from its environment value; a missing value
/// is fatal configuration.
pub fn set_secret(secret: Option<String>) -> (r: Result<String, AuthError>)
    ensures
        match secret {
            Some(s) => r matches Ok(x) && x@ == s@,
            None => r matches Err(e) && e == AuthError::ConfigMissing,
        },
{
    match secret {
        Some(s) => Ok(s),
        None => Err(AuthError::ConfigMissing),
    }
}

/// One-shot resolution of the whole configuration from an environment
/// snapshot. It succeeds exactly on complete snapshots, and the resolved
/// value is a pure function of the snapshot, so every caller that resolves
/// the same snapshot observes the same configuration.
pub fn resolve_config(
    address: Option<String>,
    port: Option<&str>,
    database_url: Option<String>,
    secret: Option<String>,
) -> (r: Result<AppConfig, AuthError>)
    ensures
        r matches Ok(c) ==> config_resolves(
            c,
            match address {
                Some(a) => Some(a@),
                None => None,
            },
            match port {
                Some(p) => Some(p@),
                None => None,
            },
            match database_url {
                Some(u) => Some(u@),
                None => None,
            },
            match secret {
                Some(s) => Some(s@),
                None => None,
            },
        ),
        r is Ok <==> config_complete(
            match port {
                Some(p) => Some(p@),
                None => None,
            },
            match database_url {
                Some(u) => Some(u@),
                None => None,
            },
            match secret {
                Some(s) => Some(s@),
                None => None,
            },
        ),
        r matches Err(e) ==> e == AuthError::ConfigMissing,
{
    let host_address = set_host_address(address);
    let port = match set_port(port) {
        Ok(p) => p,
        Err(e) => {
            return Err(e);
        },
    };
    let database_url = match set_database_url(database_url) {
        Ok(u) => u,
        Err(e) => {
            return Err(e);
        },
    };
    let secret = match set_secret(secret) {
        Ok(s) => s,
        Err(e) => {
            return Err(e);
        },
    };
    Ok(AppConfig { host_address, port, database_url, secret })
}

/// Two configurations resolved from the same environment snapshot agree in
/// every field; in particular every reader of a once-resolved
/// configuration observes the same signing secret.
pub proof fn lemma_config_resolution_unique(
    c1: AppConfig,
    c2: AppConfig,
    address: Option<Seq<char>>,
    port: Option<Seq<char>>,
    database_url: Option<Seq<char>>,
    secret: Option<Seq<char>>,
)
    requires
        config_resolves(c1, address, port, database_url, secret),
        config_resolves(c2, address, port, database_url, secret),
    ensures
        c1.host_address@ == c2.host_address@,
        c1.port == c2.port,
        c1.database_url@ == c2.database_url@,
        c1.secret@ == c2.secret@,
{
}

} // verus!
