use crate::errors::AuthError;
use crate::identity::{Identity, Role};
use vstd::prelude::*;

verus! {

/// Whether a held role satisfies a required role: a pure equality check on
/// the closed role enumeration.
pub open spec fn role_allows(have: Role, need: Role) -> bool {
    have == need
}

/// Gate for role-restricted operations. The caller must already hold a
/// resolved identity; this check never performs I/O and denies exactly the
/// identities whose role does not satisfy the required one. A denial is
/// surfaced as `Forbidden`, distinct from `Unauthenticated`, because a valid
/// identity exists.
pub fn require_role(identity: &Identity, required: Role) -> (r: Result<(), AuthError>)
    ensures
        role_allows(identity.role, required) <==> r is Ok,
        !role_allows(identity.role, required) ==> r == Err::<(), AuthError>(AuthError::Forbidden),
{
    if identity.role == required {
        Ok(())
    } else {
        Err(AuthError::Forbidden)
    }
}

} // verus!
