use auth_core::errors::{status_code, AuthError, STATUS_OK};
use auth_core::identity::{Role, User};
use auth_core::response::{filter_user_record, success_user_response};
use auth_core::schema::FetchApplication;

#[test]
fn every_error_kind_has_its_status() {
    assert_eq!(STATUS_OK, 200);
    assert_eq!(status_code(&AuthError::InvalidCredentials), 400);
    assert_eq!(status_code(&AuthError::Unauthenticated), 401);
    assert_eq!(status_code(&AuthError::Forbidden), 403);
    assert_eq!(status_code(&AuthError::DuplicateCredential), 409);
    assert_eq!(status_code(&AuthError::StorageUnavailable), 500);
    assert_eq!(status_code(&AuthError::HashingFailure), 500);
}

#[test]
fn success_response_wraps_the_filtered_user() {
    let u = User {
        id: String::from("u1"),
        first_name: String::from("Alice"),
        last_name: String::from("Liddell"),
        email: String::from("alice@example.com"),
        password: String::from("$argon2id$x"),
        role: Role::User,
        resume: String::new(),
        is_verified: false,
        created_at: 0,
        updated_at: 0,
    };
    let f = filter_user_record(&u);
    let r = success_user_response(&String::from("Registered"), f);
    assert_eq!(r.status, "Success");
    assert_eq!(r.message, "Registered");
    assert_eq!(r.data.user.id, "u1");
    assert_eq!(r.data.user.email, "alice@example.com");
}

#[test]
fn application_row_holds_plain_values() {
    let row = FetchApplication {
        id: String::from("a-1"),
        job_id: String::from("j-1"),
        first_name: String::from("Alice"),
        last_name: String::from("Liddell"),
        created_at: Some(7),
        applicant_id: String::from("u1"),
    };
    assert_eq!(row.job_id, "j-1");
    assert_eq!(row.created_at, Some(7));
}
