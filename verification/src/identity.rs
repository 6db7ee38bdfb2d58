use crate::errors::AuthError;
use crate::token::{decode_ok, decode_token, Claims};
use vstd::prelude::*;

verus! {

/// Role attached to a resolved identity. The set of roles is closed: a
/// future role must be an explicit new variant here, never a string.
#[derive(Clone, Copy, Debug, PartialEq, Eq, Structural)]
pub enum Role {
    User,
    Admin,
}

/// A user record as the user directory hands it back. The core never
/// persists these; it only reads them. The `password` field holds the
/// self-describing hash string, never a plaintext.
#[derive(Clone, Debug)]
pub struct User {
    pub id: String,
    pub first_name: String,
    pub last_name: String,
    pub email: String,
    pub password: String,
    pub role: Role,
    pub resume: String,
    pub is_verified: bool,
    pub created_at: i64,
    pub updated_at: i64,
}

/// The identity attached to one request after its token was validated and
/// its subject resolved. It lives only for that request.
#[derive(Clone, Debug, PartialEq, Eq)]
pub struct Identity {
    pub user_id: String,
    pub role: Role,
}

/// The token an `Authorization` header carries: its remainder after the
/// bearer marker, if it starts with one.
pub open spec fn bearer_of(header: Seq<char>) -> Option<Seq<char>> {
    if header.len() >= 7 && header.subrange(0, 7) == "Bearer "@ {
        Option::Some(header.skip(7))
    } else {
        Option::None
    }
}

/// The token a request presents: the value of the token cookie if that is
/// set, else the bearer credential of the `Authorization` header. Both are
/// equivalent proof of identity.
pub open spec fn extracted(cookie: Option<Seq<char>>, header: Option<Seq<char>>) -> Option<
    Seq<char>,
> {
    match cookie {
        Option::Some(c) => Option::Some(c),
        Option::None => match header {
            Option::Some(h) => bearer_of(h),
            Option::None => Option::None,
        },
    }
}

/// Strips the bearer marker off an `Authorization` header value; a header
/// that does not start with it carries no token.
pub fn strip_bearer(header: &str) -> (r: Option<String>)
    ensures
        (match r {
            Option::Some(s) => bearer_of(header@) == Option::Some(s@),
            Option::None => bearer_of(header@) is None,
        }),
{
    proof {
        reveal_strlit("Bearer ");
    }
    let marker = "Bearer ";
    let n = header.unicode_len();
    if n < 7 {
        return None;
    }
    let mut i: usize = 0;
    while i < 7
        invariant
            i <= 7,
            7 <= n == header@.len(),
            marker@ == "Bearer "@,
            "Bearer "@.len() == 7,
            forall|j: int| 0 <= j < i ==> header@[j] == "Bearer "@[j],
        decreases 7 - i,
    {
        if header.get_char(i) != marker.get_char(i) {
            proof {
                assert(header@.subrange(0, 7)[i as int] == header@[i as int]);
                assert(header@.subrange(0, 7) != "Bearer "@);
            }
            return None;
        }
        i += 1;
    }
    proof {
        assert(header@.subrange(0, 7) =~= "Bearer "@);
        assert(header@.subrange(7, n as int) =~= header@.skip(7));
    }
    let rest = header.substring_char(7, n);
    Some(rest.to_owned())
}

/// The claim set a request's credentials yield at time `now`: the request
/// must present a token, and that token must be authentic and unexpired.
pub open spec fn auth_outcome(
    cookie: Option<Seq<char>>,
    header: Option<Seq<char>>,
    secret: Seq<u8>,
    now: u64,
) -> Option<(Seq<char>, u64, u64)> {
    match extracted(cookie, header) {
        Option::Some(t) => decode_ok(t, secret, now),
        Option::None => Option::None,
    }
}

pub open spec fn opt_string_view(o: Option<&String>) -> Option<Seq<char>> {
    match o {
        Option::Some(s) => Option::Some(s@),
        Option::None => Option::None,
    }
}

/// The per-request interceptor's first two steps: extract a token from the
/// cookie or the header and validate it. Succeeds exactly when the request
/// presents an authentic, unexpired token, and returns its claims. Every
/// failure — no token, malformed token, bad signature, expiry — collapses
/// to the one `Unauthenticated` kind, so the caller learns nothing about
/// the internal cause.
pub fn authenticate(
    cookie: Option<&String>,
    header: Option<&String>,
    secret: &Vec<u8>,
    now: u64,
) -> (r: Result<Claims, AuthError>)
    ensures
        r is Ok <==> auth_outcome(opt_string_view(cookie), opt_string_view(header), secret@, now)
            is Some,
        r matches Ok(c) ==> auth_outcome(
            opt_string_view(cookie),
            opt_string_view(header),
            secret@,
            now,
        ) == Some((c.sub@, c.iat, c.exp)),
        r matches Err(e) ==> e == AuthError::Unauthenticated,
{
    let tok: Option<String> = match cookie {
        Some(c) => Some(c.clone()),
        None => match header {
            Some(h) => strip_bearer(h.as_str()),
            None => None,
        },
    };
    match tok {
        None => Err(AuthError::Unauthenticated),
        Some(t) => match decode_token(&t, secret, now) {
            Ok(c) => Ok(c),
            Err(_) => Err(AuthError::Unauthenticated),
        },
    }
}

/// The interceptor's last step: the validated subject is resolved against
/// the user directory, and the record found becomes the request's
/// identity. A subject that no longer resolves fails with the same
/// `Unauthenticated` as an invalid token, so a dangling subject is not
/// distinguishable from a forged one.
pub fn resolve_identity(claims: &Claims, user: Option<&User>) -> (r: Result<Identity, AuthError>)
    ensures
        user is None ==> r == Err::<Identity, AuthError>(AuthError::Unauthenticated),
        (match user {
            Option::Some(u) => r matches Ok(id) && id.user_id@ == claims.sub@ && id.role == u.role,
            Option::None => true,
        }),
{
    match user {
        None => Err(AuthError::Unauthenticated),
        Some(u) => Ok(Identity { user_id: claims.sub.clone(), role: u.role }),
    }
}

/// A request that presents no token at all is turned away as
/// unauthenticated, whatever the clock and the secret.
pub proof fn lemma_missing_token_unauthenticated(secret: Seq<u8>, now: u64)
    ensures
        auth_outcome(Option::None, Option::None, secret, now) is None,
{
}

/// An authentic token past its expiry is turned away exactly like an
/// invalid one: the request ends unauthenticated.
pub proof fn lemma_expired_token_unauthenticated(
    token: Seq<char>,
    sub: Seq<char>,
    iat: u64,
    exp: u64,
    secret: Seq<u8>,
    now: u64,
)
    requires
        crate::token::token_claims(token, secret) == Some((sub, iat, exp)),
        now > exp,
    ensures
        auth_outcome(Option::Some(token), Option::None, secret, now) is None,
{
}

} // verus!
