use vstd::prelude::*;

verus! {

/// The closed error taxonomy of the authentication core. Every failure a
/// caller can observe is one of these kinds; no other error is surfaced.
#[derive(Clone, Copy, Debug, PartialEq, Eq, Structural)]
pub enum AuthError {
    /// Login password mismatch, or no credential stored for the email.
    /// Both collapse to this one kind so that a login failure never reveals
    /// whether the email exists.
    InvalidCredentials,
    /// Registration attempted with an email that is already taken.
    DuplicateCredential,
    /// Absent, malformed, expired or signature-invalid token, or a token
    /// subject that no longer resolves to a user.
    Unauthenticated,
    /// A valid identity whose role does not satisfy the required role.
    Forbidden,
    /// The credential store or user directory failed.
    StorageUnavailable,
    /// Catastrophic internal failure of the hashing primitive.
    HashingFailure,
}

/// Failures of the token codec, before they are collapsed for the caller.
#[derive(Clone, Copy, Debug, PartialEq, Eq, Structural)]
pub enum TokenError {
    /// The signature does not match the payload under the current secret.
    InvalidSignature,
    /// The token does not parse into a signed claim set.
    Malformed,
    /// The claims are authentic but their expiry lies in the past.
    Expired,
}

/// The HTTP status that each error kind is reported with.
pub open spec fn status_code_spec(e: AuthError) -> u16 {
    match e {
        AuthError::InvalidCredentials => 400,
        AuthError::DuplicateCredential => 409,
        AuthError::Unauthenticated => 401,
        AuthError::Forbidden => 403,
        AuthError::StorageUnavailable => 500,
        AuthError::HashingFailure => 500,
    }
}

/// Status of a successful response.
pub const STATUS_OK: u16 = 200;

/// Maps each error kind to its HTTP status: 400 for a bad login, 409 for a
/// duplicate registration email, 401 for a missing or invalid token, 403 for
/// an authenticated caller with an insufficient role, and 500 for internal
/// failures, which are never detailed to the caller.
pub fn status_code(e: &AuthError) -> (r: u16)
    ensures
        r == status_code_spec(*e),
{
    match e {
        AuthError::InvalidCredentials => 400,
        AuthError::DuplicateCredential => 409,
        AuthError::Unauthenticated => 401,
        AuthError::Forbidden => 403,
        AuthError::StorageUnavailable => 500,
        AuthError::HashingFailure => 500,
    }
}

} // verus!
