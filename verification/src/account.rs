use vstd::prelude::*;

use crate::api_response::ApiResponse;
use crate::bearer::{is_space, is_space_char, whitespace_free};
use crate::claims::VALIDITY_WINDOW_SECS;
use crate::errors::auth_error_response;
use crate::jwt::{encode_jwt, signed_token};

verus! {

/// What a caller submits to create an account.
#[derive(Debug)]
pub struct RegisterModel {
    pub name: String,
    pub email: String,
    pub password: String,
}

/// What a caller submits to log in.
#[derive(Debug)]
pub struct LoginModel {
    pub email: String,
    pub password: String,
}

/// A stored user row, as the account and listing decisions read it: the
/// identifier, the display name, the unique email, the password digest.
#[derive(Debug)]
pub struct UserRecord {
    pub id: i32,
    pub name: String,
    pub email: String,
    pub password: String,
}

/// The minimal shape an email must have: it mentions `@`.
pub open spec fn email_has_at(s: Seq<char>) -> bool {
    exists|i: int| 0 <= i < s.len() && s[i] == '@'
}

/// Whether the text is empty or whitespace alone.
pub open spec fn is_blank(s: Seq<char>) -> bool {
    forall|i: int| 0 <= i < s.len() ==> is_space_char(s[i])
}

/// Whether the text mentions `@`.
fn contains_at(s: &str) -> (r: bool)
    ensures
        r == email_has_at(s@),
{
    let n = s.unicode_len();
    let mut i: usize = 0;
    while i < n
        invariant
            i <= n,
            n == s@.len(),
            forall|k: int| 0 <= k < i ==> s@[k] != '@',
        decreases n - i,
    {
        if s.get_char(i) == '@' {
            proof {
                assert(s@[i as int] == '@');
            }
            return true;
        }
        i = i + 1;
    }
    false
}

/// Whether the text is empty or whitespace alone.
fn blank(s: &str) -> (r: bool)
    ensures
        r == is_blank(s@),
{
    let n = s.unicode_len();
    let mut i: usize = 0;
    while i < n
        invariant
            i <= n,
            n == s@.len(),
            forall|k: int| 0 <= k < i ==> is_space_char(s@[k]),
        decreases n - i,
    {
        if !is_space(s.get_char(i)) {
            return false;
        }
        i = i + 1;
    }
    true
}

/// The lowercase hexadecimal SHA-256 digest of the text.
pub uninterp spec fn sha256_hex(s: Seq<char>) -> Seq<char>;

/// Relies on sha256::digest: the hexadecimal digest is a function of the
/// input text alone.
#[verifier::external_body]
fn hash_password(password: &str) -> (r: String)
    ensures
        r@ == sha256_hex(password@),
{
    sha256::digest(password)
}

/// The validation that guards account creation — the email must carry an
/// `@`, must not be registered already, and the name must not be blank,
/// in that order, each failure answered as the caller sees it — and, when
/// it passes, the digest under which the new account's password is
/// stored. Whether the email is taken is the store's answer, handed in by
/// the caller.
pub fn register_gate(register: &RegisterModel, email_taken: bool) -> (r: Result<
    String,
    ApiResponse,
>)
    ensures
        !email_has_at(register.email@) ==> (r matches Err(e) && e.status_code == 400
            && e.body@ == "Invalid email format"@),
        email_has_at(register.email@) && email_taken ==> (r matches Err(e) && e.status_code == 400
            && e.body@ == "Email already registered"@),
        email_has_at(register.email@) && !email_taken && is_blank(register.name@) ==> (
        r matches Err(e) && e.status_code == 400 && e.body@ == "Name cannot be empty"@),
        r is Ok <==> (email_has_at(register.email@) && !email_taken && !is_blank(register.name@)),
        r matches Ok(digest) ==> digest@ == sha256_hex(register.password@),
{
    if !contains_at(register.email.as_str()) {
        return Err(ApiResponse::new(400, "Invalid email format".to_owned()));
    }
    if email_taken {
        return Err(ApiResponse::new(400, "Email already registered".to_owned()));
    }
    if blank(register.name.as_str()) {
        return Err(ApiResponse::new(400, "Name cannot be empty".to_owned()));
    }
    Ok(hash_password(register.password.as_str()))
}

/// The decision that guards login: a shaped email, a known user, and a
/// matching password digest, in that order; exactly on those inputs a
/// signed token for the stored identity is issued. The user row, if any,
/// is the store's answer for the submitted email, handed in by the
/// caller.
pub fn login_gate(login: &LoginModel, user: Option<&UserRecord>, secret: &str) -> (r: Result<
    String,
    ApiResponse,
>)
    ensures
        !email_has_at(login.email@) ==> (r matches Err(e) && e.status_code == 400
            && e.body@ == "Invalid email format"@),
        email_has_at(login.email@) ==> match user {
            None => r matches Err(e) && e.status_code == 404 && e.body@ == "User not found"@,
            Some(u) => {
                if u.password@ != sha256_hex(login.password@) {
                    r matches Err(e) && e.status_code == 401 && e.body@ == "Incorrect password"@
                } else {
                    r matches Ok(t) && whitespace_free(t@) && exists|iat: int|
                        0 <= iat && #[trigger] signed_token(
                            u.email@,
                            u.id as int,
                            iat,
                            iat + VALIDITY_WINDOW_SECS,
                            secret@,
                        ) == t@
                }
            },
        },
{
    if !contains_at(login.email.as_str()) {
        return Err(ApiResponse::new(400, "Invalid email format".to_owned()));
    }
    let u = match user {
        Some(u) => u,
        None => {
            return Err(ApiResponse::new(404, "User not found".to_owned()));
        },
    };
    let digest = hash_password(login.password.as_str());
    if u.password != digest {
        return Err(ApiResponse::new(401, "Incorrect password".to_owned()));
    }
    match encode_jwt(u.email.clone(), u.id, secret) {
        Ok(t) => Ok(t),
        Err(e) => Err(auth_error_response(e)),
    }
}

} // verus!
