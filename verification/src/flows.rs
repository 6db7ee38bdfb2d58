use crate::errors::AuthError;
use crate::identity::{Role, User};
use crate::password::{
    credentials_accepted, hash_password, password_matches, verify_password, well_formed_hash,
};
use crate::token::{encode_token, issue_claims, token_claims, token_of, TOKEN_LIFETIME_SECS};
use vstd::prelude::*;

verus! {

/// The lowercase folding of a string of characters.
pub uninterp spec fn lower_of(s: Seq<char>) -> Seq<char>;

/// Relies on `str::to_lowercase`: the result depends on the characters
/// alone.
#[verifier::external_body]
fn to_lowercase(s: &String) -> (r: String)
    ensures
        r@ == lower_of(s@),
{
    s.to_lowercase()
}

/// A credential ready to be stored: the normalized email, the salted hash
/// of the password, and the role the new account is to hold. The plaintext
/// itself is never part of it.
#[derive(Clone, Debug, PartialEq, Eq)]
pub struct NewCredential {
    pub email: String,
    pub password_hash: String,
    pub role: Role,
}

/// The registration decision, once storage has said whether the email is
/// taken. A taken email fails with `DuplicateCredential` and nothing is
/// hashed; otherwise the password is salted and hashed, and the credential
/// to store carries the lowercased email — emails are unique
/// case-insensitively — the self-describing hash of full strength, which
/// verifies against the plaintext, and the role this registration grants.
/// Hashing itself can fail only catastrophically.
pub fn register_flow(email_exists: bool, email: &String, password: &String, role: Role) -> (r:
    Result<NewCredential, AuthError>)
    ensures
        email_exists ==> r == Err::<NewCredential, AuthError>(AuthError::DuplicateCredential),
        !email_exists ==> (match r {
            Result::Ok(cred) => cred.email@ == lower_of(email@) && password_matches(
                password@,
                cred.password_hash@,
            ) && well_formed_hash(cred.password_hash@) && cred.role == role,
            Result::Err(e) => e == AuthError::HashingFailure,
        }),
{
    if email_exists {
        return Err(AuthError::DuplicateCredential);
    }
    match hash_password(password) {
        Some(h) => Ok(NewCredential { email: to_lowercase(email), password_hash: h, role }),
        None => Err(AuthError::HashingFailure),
    }
}

/// The login decision, once storage has looked the email up. A missing
/// record and a wrong password fail with the same `InvalidCredentials`, so
/// a failed login never reveals whether the email exists; this is the only
/// way a login can fail. An accepted password always yields a signed token
/// asserting the user's identifier, issued at `now` and expiring one token
/// lifetime later.
pub fn login_flow(user: Option<&User>, password: &String, secret: &Vec<u8>, now: u64) -> (r:
    Result<String, AuthError>)
    requires
        now + TOKEN_LIFETIME_SECS <= u64::MAX,
    ensures
        !credentials_accepted(stored_hash_view(user), password@) ==> r == Err::<
            String,
            AuthError,
        >(AuthError::InvalidCredentials),
        (match user {
            Option::Some(u) => credentials_accepted(stored_hash_view(user), password@) ==> (r
                matches Ok(t) && t@ == token_of(
                u.id@,
                now,
                (now + TOKEN_LIFETIME_SECS) as u64,
                secret@,
            ) && token_claims(t@, secret@) == Some(
                (u.id@, now, (now + TOKEN_LIFETIME_SECS) as u64),
            )),
            Option::None => true,
        }),
{
    match user {
        None => Err(AuthError::InvalidCredentials),
        Some(u) => {
            if !verify_password(password, &u.password) {
                Err(AuthError::InvalidCredentials)
            } else {
                let claims = issue_claims(&u.id, now);
                Ok(encode_token(&claims, secret).unwrap())
            }
        },
    }
}

/// The stored hash a directory lookup offers for comparison, if any.
pub open spec fn stored_hash_view(user: Option<&User>) -> Option<Seq<char>> {
    match user {
        Option::Some(u) => Option::Some(u.password@),
        Option::None => Option::None,
    }
}

/// A transport cookie as this core prescribes it; the transport layer only
/// copies these fields onto the wire.
#[derive(Clone, Debug)]
pub struct SessionCookie {
    pub name: String,
    pub value: String,
    pub path: String,
    pub max_age_secs: i64,
    pub http_only: bool,
}

/// The cookie that hands a fresh token to the client: named `token`, scoped
/// to the whole site, HTTP-only, living exactly one token lifetime.
pub fn session_cookie(token: &String) -> (r: SessionCookie)
    ensures
        r.name@ == "token"@,
        r.value@ == token@,
        r.path@ == "/"@,
        r.max_age_secs == TOKEN_LIFETIME_SECS as i64,
        r.http_only,
{
    SessionCookie {
        name: "token".to_owned(),
        value: token.clone(),
        path: "/".to_owned(),
        max_age_secs: TOKEN_LIFETIME_SECS as i64,
        http_only: true,
    }
}

/// The cookie that ends a session on the client: same name and scope, an
/// empty value, and a negative age so the client drops it at once. Nothing
/// is revoked server-side; an unexpired token stays valid.
pub fn logout_cookie() -> (r: SessionCookie)
    ensures
        r.name@ == "token"@,
        r.value@.len() == 0,
        r.path@ == "/"@,
        r.max_age_secs == -1,
        r.http_only,
{
    SessionCookie {
        name: "token".to_owned(),
        value: String::new(),
        path: "/".to_owned(),
        max_age_secs: -1,
        http_only: true,
    }
}

} // verus!
