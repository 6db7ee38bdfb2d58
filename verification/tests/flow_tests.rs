use auth_core::errors::{AuthError, STATUS_OK};
use auth_core::flows::{login_flow, logout_cookie, register_flow, session_cookie};
use auth_core::identity::{authenticate, resolve_identity, Role, User};
use auth_core::errors::status_code;
use auth_core::policy::require_role;

fn secret() -> Vec<u8> {
    b"a-shared-signing-secret".to_vec()
}

/// A stand-in for the credential store: the lookup capabilities the core
/// asks of its storage collaborator, over a vector of records.
struct Store {
    users: Vec<User>,
}

impl Store {
    fn new() -> Store {
        Store { users: Vec::new() }
    }

    fn email_exists(&self, email: &str) -> bool {
        let needle = email.to_lowercase();
        self.users.iter().any(|u| u.email == needle)
    }

    fn by_email(&self, email: &str) -> Option<&User> {
        self.users.iter().find(|u| u.email == email)
    }

    fn by_id(&self, id: &str) -> Option<&User> {
        self.users.iter().find(|u| u.id == id)
    }

    fn insert(&mut self, id: &str, email: String, password_hash: String, role: Role) {
        self.users.push(User {
            id: String::from(id),
            first_name: String::from("Alice"),
            last_name: String::from("Liddell"),
            email,
            password: password_hash,
            role,
            resume: String::new(),
            is_verified: false,
            created_at: 0,
            updated_at: 0,
        });
    }
}

#[test]
fn register_duplicate_email_is_conflict() {
    let email = String::from("alice@example.com");
    let password = String::from("secret123");
    let mut store = Store::new();

    let first = register_flow(store.email_exists(&email), &email, &password, Role::User);
    let cred = first.expect("first registration failed");
    store.insert("u1", cred.email, cred.password_hash, Role::User);

    let second = register_flow(store.email_exists(&email), &email, &password, Role::User);
    assert_eq!(second, Err(AuthError::DuplicateCredential));
    assert_eq!(status_code(&AuthError::DuplicateCredential), 409);
}

#[test]
fn registration_lowercases_the_email() {
    let email = String::from("Alice@Example.COM");
    let password = String::from("secret123");
    let cred = register_flow(false, &email, &password, Role::User).expect("registration failed");
    assert_eq!(cred.email, "alice@example.com");
}

#[test]
fn login_with_unknown_email_and_wrong_password_fail_alike() {
    let s = secret();
    let password = String::from("secret123");
    let cred = register_flow(false, &String::from("alice@example.com"), &password, Role::User)
        .expect("registration failed");
    let mut store = Store::new();
    store.insert("u1", cred.email, cred.password_hash, Role::User);

    let unknown = login_flow(store.by_email("bob@example.com"), &password, &s, 1_000);
    let wrong = login_flow(
        store.by_email("alice@example.com"),
        &String::from("not-it"),
        &s,
        1_000,
    );
    assert_eq!(unknown, Err(AuthError::InvalidCredentials));
    assert_eq!(wrong, Err(AuthError::InvalidCredentials));
    assert_eq!(status_code(&AuthError::InvalidCredentials), 400);
}

#[test]
fn admin_registration_grants_the_admin_role() {
    let email = String::from("root@example.com");
    let password = String::from("secret123");
    let cred = register_flow(false, &email, &password, Role::Admin).expect("registration failed");
    assert_eq!(cred.role, Role::Admin);
    let user_cred =
        register_flow(false, &email, &password, Role::User).expect("registration failed");
    assert_eq!(user_cred.role, Role::User);
}

#[test]
fn cookie_prescription_for_login_and_logout() {
    let token = String::from("abc.def.ghi");
    let c = session_cookie(&token);
    assert_eq!(c.name, "token");
    assert_eq!(c.value, token);
    assert_eq!(c.path, "/");
    assert_eq!(c.max_age_secs, 3600);
    assert!(c.http_only);

    let gone = logout_cookie();
    assert_eq!(gone.name, "token");
    assert_eq!(gone.value, "");
    assert_eq!(gone.path, "/");
    assert_eq!(gone.max_age_secs, -1);
    assert!(gone.http_only);
}

#[test]
fn end_to_end_register_login_me_expiry() {
    let s = secret();
    let email = String::from("alice@example.com");
    let password = String::from("secret123");
    let mut store = Store::new();
    let now: u64 = 1_700_000_000;

    // Registration succeeds: 200.
    let cred = register_flow(store.email_exists(&email), &email, &password, Role::User)
        .expect("registration failed");
    store.insert("alice-id", cred.email, cred.password_hash, Role::User);
    let status = STATUS_OK;
    assert_eq!(status, 200);

    // Login with the wrong password: 400.
    let bad = login_flow(store.by_email(&email), &String::from("wrong"), &s, now);
    assert_eq!(bad.map_err(|e| status_code(&e)), Err(400));

    // Login with the right password: 200 and a valid token.
    let token = login_flow(store.by_email(&email), &password, &s, now).expect("login failed");

    // The token on a protected route: identity of alice attached.
    let claims = authenticate(Some(&token), None, &s, now + 10).expect("authentication failed");
    assert_eq!(claims.sub, "alice-id");
    let identity = resolve_identity(&claims, store.by_id(&claims.sub)).expect("resolution failed");
    assert_eq!(identity.user_id, "alice-id");
    assert_eq!(identity.role, Role::User);

    // A role-gated operation denies the non-admin: 403.
    let gate = require_role(&identity, Role::Admin);
    assert_eq!(gate.map_err(|e| status_code(&e)), Err(403));

    // Past expiry the same token is turned away: 401.
    let late = authenticate(Some(&token), None, &s, now + 3601);
    assert_eq!(late.map_err(|e| status_code(&e)), Err(401));
}
