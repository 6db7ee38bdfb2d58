use crate::identity::{Role, User};
use vstd::prelude::*;

verus! {

/// The caller-facing view of a user record: every field of the stored
/// record except the password hash, which must never leave the core.
#[allow(non_snake_case)]
#[derive(Clone, Debug)]
pub struct FilteredUser {
    pub id: String,
    pub first_name: String,
    pub last_name: String,
    pub email: String,
    pub role: Role,
    pub resume: String,
    pub is_verified: bool,
    pub createdAt: i64,
    pub updatedAt: i64,
}

/// Payload wrapper carrying one filtered user.
#[derive(Clone, Debug)]
pub struct UserData {
    pub user: FilteredUser,
}

/// The response body shape for user endpoints.
#[derive(Clone, Debug)]
pub struct UserResponse {
    pub status: String,
    pub message: String,
    pub data: UserData,
}

/// Wraps a filtered user into the successful response shape: the status
/// label is `Success`, and the payload is exactly the given record.
pub fn success_user_response(message: &String, user: FilteredUser) -> (r: UserResponse)
    ensures
        r.status@ == "Success"@,
        r.message@ == message@,
        r.data.user == user,
{
    UserResponse {
        status: "Success".to_owned(),
        message: message.clone(),
        data: UserData { user },
    }
}

/// Projects a stored user record onto its caller-facing view. Every field
/// is carried over unchanged; the password hash is dropped and cannot be
/// present in the result, which has no field for it.
pub fn filter_user_record(user: &User) -> (r: FilteredUser)
    ensures
        r.id@ == user.id@,
        r.first_name@ == user.first_name@,
        r.last_name@ == user.last_name@,
        r.email@ == user.email@,
        r.role == user.role,
        r.resume@ == user.resume@,
        r.is_verified == user.is_verified,
        r.createdAt == user.created_at,
        r.updatedAt == user.updated_at,
{
    FilteredUser {
        id: user.id.clone(),
        first_name: user.first_name.clone(),
        last_name: user.last_name.clone(),
        email: user.email.clone(),
        role: user.role,
        resume: user.resume.clone(),
        is_verified: user.is_verified,
        createdAt: user.created_at,
        updatedAt: user.updated_at,
    }
}

} // verus!
