use crate::errors::TokenError;
use jsonwebtoken::errors::ErrorKind;
use jsonwebtoken::{Algorithm, DecodingKey, EncodingKey, Header, Validation};
use serde_json::Value;
use vstd::prelude::*;

verus! {

/// The claim set carried inside a signed token: the subject it asserts, the
/// moment of issuance and the moment of expiry, both as unix seconds. It
/// exists only inside the token string; nothing is persisted server-side.
#[derive(Clone, Debug, PartialEq, Eq)]
pub struct Claims {
    pub sub: String,
    pub iat: u64,
    pub exp: u64,
}

/// A freshly issued claim set is well formed: it expires strictly after it
/// was issued.
pub open spec fn claims_wf(c: Claims) -> bool {
    c.iat < c.exp
}

/// How long an issued token stays valid, in seconds: a fixed policy
/// constant of sixty minutes.
pub const TOKEN_LIFETIME_SECS: u64 = 3600;

/// The token string that signing a claim set under a secret produces. The
/// codec is deterministic: the same claims and secret give the same string
/// in every process.
pub uninterp spec fn token_of(sub: Seq<char>, iat: u64, exp: u64, secret: Seq<u8>) -> Seq<char>;

/// The claim set that signature verification under a secret recovers from a
/// token string: `Some` exactly when the string is a well-formed token
/// whose signature matches the secret, `None` otherwise. Expiry is not part
/// of this; it is judged against a caller-supplied clock.
pub uninterp spec fn token_claims(token: Seq<char>, secret: Seq<u8>) -> Option<(Seq<char>, u64, u64)>;

/// Relies on `jsonwebtoken::encode` with the default header, which signs
/// `{sub, iat, exp}` with HMAC-SHA256 under the secret. The result is a
/// function of the claims and the secret alone, and `jsonwebtoken::decode`
/// under the same secret recovers exactly these claims from it. On this
/// path encoding cannot fail: the secret key's family matches the HMAC
/// header, serializing the payload map is total, and HMAC signing is
/// infallible — so a token is always returned.
#[verifier::external_body]
fn jwt_encode_raw(sub: &String, iat: u64, exp: u64, secret: &Vec<u8>) -> (r: Option<String>)
    ensures
        r is Some,
        r matches Some(t) ==> t@ == token_of(sub@, iat, exp, secret@),
        r matches Some(t) ==> token_claims(t@, secret@) == Some((sub@, iat, exp)),
{
    let mut payload = serde_json::Map::new();
    payload.insert("sub".to_string(), serde_json::Value::from(sub.as_str()));
    payload.insert("iat".to_string(), serde_json::Value::from(iat));
    payload.insert("exp".to_string(), serde_json::Value::from(exp));
    let key = EncodingKey::from_secret(secret);
    jsonwebtoken::encode(&Header::default(), &serde_json::Value::Object(payload), &key).ok()
}

/// Relies on `jsonwebtoken::decode` pinned to HMAC-SHA256: the verifying
/// side fixes the algorithm, so a token naming any other algorithm is
/// rejected whatever its header says. It accepts exactly the tokens whose
/// signature matches the secret, and hands back their `sub`, `iat` and
/// `exp` claims; a payload missing one of them, or carrying a claim the
/// pinned validation refuses — an audience, when none is expected — is
/// malformed. Expiry is not
/// checked here but by the caller, against an explicit clock.
#[verifier::external_body]
fn jwt_decode_raw(token: &String, secret: &Vec<u8>) -> (r: Result<Claims, TokenError>)
    ensures
        r is Ok <==> token_claims(token@, secret@) is Some,
        r matches Ok(c) ==> token_claims(token@, secret@) == Some((c.sub@, c.iat, c.exp)),
        r matches Err(e) ==> e == TokenError::InvalidSignature || e == TokenError::Malformed,
{
    let mut v = Validation::new(Algorithm::HS256);
    v.validate_exp = false;
    v.required_spec_claims.clear();
    let d = match jsonwebtoken::decode::<Value>(token, &DecodingKey::from_secret(secret), &v) {
        Ok(d) => d.claims,
        Err(e) => return Err(match e.kind() {
            ErrorKind::InvalidSignature => TokenError::InvalidSignature,
            _ => TokenError::Malformed,
        }),
    };
    match (d.get("sub").and_then(Value::as_str), d.get("iat").and_then(Value::as_u64), d.get("exp").and_then(Value::as_u64)) {
        (Some(s), Some(i), Some(e)) => Ok(Claims { sub: s.to_string(), iat: i, exp: e }),
        _ => Err(TokenError::Malformed),
    }
}

/// Relies on `chrono::Utc::now` for the current unix timestamp. The value
/// depends on the machine's clock, so nothing is assumed of it.
#[verifier::external_body]
fn unix_now_raw() -> i64 {
    chrono::Utc::now().timestamp()
}

/// The current unix time, clamped below at zero so that later arithmetic
/// on it stays in unsigned range. No contract can pin the clock's value.
pub fn unix_now() -> u64 {
    let t = unix_now_raw();
    if t < 0 {
        0
    } else {
        t as u64
    }
}

/// Builds the claim set issued at `now`: the subject, the issue time, and
/// an expiry one fixed lifetime later.
pub fn issue_claims(sub: &String, now: u64) -> (r: Claims)
    requires
        now + TOKEN_LIFETIME_SECS <= u64::MAX,
    ensures
        r.sub@ == sub@,
        r.iat == now,
        r.exp == now + TOKEN_LIFETIME_SECS,
        claims_wf(r),
{
    Claims { sub: sub.clone(), iat: now, exp: now + TOKEN_LIFETIME_SECS }
}

/// Serializes and signs a claim set under the shared secret. Signing with
/// the pinned symmetric scheme cannot fail, so a token is always returned:
/// exactly the signing of these claims, and decoding it under the same
/// secret recovers them.
pub fn encode_token(claims: &Claims, secret: &Vec<u8>) -> (r: Option<String>)
    ensures
        r is Some,
        r matches Some(t) ==> t@ == token_of(claims.sub@, claims.iat, claims.exp, secret@),
        r matches Some(t) ==> token_claims(t@, secret@) == Some((claims.sub@, claims.iat, claims.exp)),
{
    jwt_encode_raw(&claims.sub, claims.iat, claims.exp, secret)
}

/// The claim set that decoding yields at time `now`: the authentic claims
/// if the signature matches and the expiry has not passed, nothing
/// otherwise.
pub open spec fn decode_ok(token: Seq<char>, secret: Seq<u8>, now: u64) -> Option<(Seq<char>, u64, u64)> {
    match token_claims(token, secret) {
        Option::Some(c) => if now <= c.2 {
            Option::Some(c)
        } else {
            Option::None
        },
        Option::None => Option::None,
    }
}

/// Validates a token string under the shared secret at time `now`. Succeeds
/// exactly on authentic, unexpired tokens and returns their claims; an
/// authentic token past its expiry fails with `Expired`, and any other
/// string fails with `InvalidSignature` or `Malformed`.
pub fn decode_token(token: &String, secret: &Vec<u8>, now: u64) -> (r: Result<Claims, TokenError>)
    ensures
        r is Ok <==> decode_ok(token@, secret@, now) is Some,
        r matches Ok(c) ==> decode_ok(token@, secret@, now) == Some((c.sub@, c.iat, c.exp)),
        (match token_claims(token@, secret@) {
            Option::Some(c) => now > c.2 ==> r == Err::<Claims, TokenError>(TokenError::Expired),
            Option::None => r matches Err(e) && (e == TokenError::InvalidSignature
                || e == TokenError::Malformed),
        }),
{
    match jwt_decode_raw(token, secret) {
        Ok(c) => {
            if now <= c.exp {
                Ok(c)
            } else {
                Err(TokenError::Expired)
            }
        },
        Err(e) => Err(e),
    }
}

/// Round trip: a token that carries a claim set under a secret decodes to
/// exactly that claim set at any time not later than its expiry. Encoding
/// establishes the premise: a successful `encode_token` returns a token `t`
/// with `token_claims(t, secret) == Some((sub, iat, exp))`.
pub proof fn lemma_token_round_trip(sub: Seq<char>, iat: u64, exp: u64, secret: Seq<u8>, now: u64)
    requires
        token_claims(token_of(sub, iat, exp, secret), secret) == Some((sub, iat, exp)),
        now <= exp,
    ensures
        decode_ok(token_of(sub, iat, exp, secret), secret, now) == Some((sub, iat, exp)),
{
}

/// A token decoded after its expiry is rejected, whatever claims it
/// carries.
pub proof fn lemma_expired_token_rejected(token: Seq<char>, sub: Seq<char>, iat: u64, exp: u64, secret: Seq<u8>, now: u64)
    requires
        token_claims(token, secret) == Some((sub, iat, exp)),
        now > exp,
    ensures
        decode_ok(token, secret, now) is None,
{
}

} // verus!
