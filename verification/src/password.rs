use argon2::password_hash::rand_core::{OsRng, RngCore};
use argon2::password_hash::{PasswordHash, PasswordHasher, PasswordVerifier, Salt, SaltString};
use argon2::Argon2;
use vstd::prelude::*;

verus! {

/// Whether a plaintext password verifies against a stored self-describing
/// hash string. Verification re-derives the digest from the parameters and
/// salt embedded in the string, so the outcome is a function of the two
/// strings alone; a string that does not parse as a hash matches nothing.
pub uninterp spec fn password_matches(password: Seq<char>, hash: Seq<char>) -> bool;

/// The shape every produced hash string has: the PHC form of the one
/// pinned algorithm, and long enough to carry its version, the fixed
/// minimum-strength parameters, the full-length salt and the digest — a
/// short or alien string is never handed out as a credential hash.
pub open spec fn well_formed_hash(h: Seq<char>) -> bool {
    h.len() >= 64 && h.subrange(0, 10) == "$argon2id$"@
}

/// Relies on argon2's `hash_password` over a freshly drawn random salt: on
/// success it returns a PHC string carrying the `argon2id` identifier, the
/// version, the default parameters, the 16-byte salt and the 32-byte
/// digest — 97 characters in all, so comfortably above the stated bound —
/// and `verify_password` accepts the same plaintext against that string.
/// The salt is random, so nothing else is assumed of the string itself. A
/// failing operating-system RNG yields `None` rather than a panic.
#[verifier::external_body]
fn hash_raw(password: &String) -> (r: Option<String>)
    ensures
        r matches Some(h) ==> password_matches(password@, h@),
        r matches Some(h) ==> well_formed_hash(h@),
{
    let mut bytes = [0u8; Salt::RECOMMENDED_LENGTH];
    if OsRng.try_fill_bytes(&mut bytes).is_err() {
        return None;
    }
    let salt = match SaltString::encode_b64(&bytes) {
        Ok(s) => s,
        Err(_) => return None,
    };
    match Argon2::default().hash_password(password.as_bytes(), &salt) {
        Ok(h) => Some(h.to_string()),
        Err(_) => None,
    }
}

/// Relies on argon2's `verify_password` after `PasswordHash::new`: it
/// recomputes the digest with the parameters and salt embedded in the hash
/// string and compares in constant time, so the result depends on the two
/// arguments alone. A malformed hash string yields `false`, never an error.
#[verifier::external_body]
fn verify_raw(password: &String, hash: &String) -> (r: bool)
    ensures
        r == password_matches(password@, hash@),
{
    match PasswordHash::new(hash.as_str()) {
        Ok(parsed) => Argon2::default().verify_password(password.as_bytes(), &parsed).is_ok(),
        Err(_) => false,
    }
}

/// Salts and hashes a plaintext credential. Returns `None` only on a
/// catastrophic internal failure of the hashing primitive; on success the
/// returned string verifies against the plaintext that produced it and has
/// the self-describing shape of the pinned algorithm, never shorter than
/// the fixed minimum-strength parameterization requires.
pub fn hash_password(password: &String) -> (r: Option<String>)
    ensures
        r matches Some(h) ==> password_matches(password@, h@),
        r matches Some(h) ==> well_formed_hash(h@),
{
    hash_raw(password)
}

/// Verifies a plaintext credential against a stored hash string. Returns
/// `false` both on mismatch and on a malformed stored hash, so a caller
/// cannot tell a wrong password from a corrupt record.
pub fn verify_password(password: &String, hash: &String) -> (r: bool)
    ensures
        r == password_matches(password@, hash@),
{
    verify_raw(password, hash)
}

/// Whether a presented password is accepted against an optionally stored
/// hash: a missing credential accepts nothing, exactly like a mismatch.
pub open spec fn credentials_accepted(stored: Option<Seq<char>>, password: Seq<char>) -> bool {
    match stored {
        Option::Some(h) => password_matches(password, h),
        Option::None => false,
    }
}

/// A credential freshly hashed from a plaintext is accepted when the same
/// plaintext is presented at login.
pub proof fn lemma_fresh_hash_accepted(password: Seq<char>, hash: Seq<char>)
    requires
        password_matches(password, hash),
    ensures
        credentials_accepted(Some(hash), password),
{
}

} // verus!
