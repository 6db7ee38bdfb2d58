use auth_core::errors::TokenError;
use auth_core::token::{decode_token, encode_token, issue_claims, Claims, TOKEN_LIFETIME_SECS};

fn secret() -> Vec<u8> {
    b"a-shared-signing-secret".to_vec()
}

#[test]
fn issued_claims_carry_subject_and_lifetime() {
    let sub = String::from("user-17");
    let c = issue_claims(&sub, 1_000_000);
    assert_eq!(c.sub, "user-17");
    assert_eq!(c.iat, 1_000_000);
    assert_eq!(c.exp, 1_000_000 + TOKEN_LIFETIME_SECS);
    assert!(c.iat < c.exp);
}

#[test]
fn encode_then_decode_round_trips() {
    let s = secret();
    let claims = Claims { sub: String::from("user-17"), iat: 1_000_000, exp: 1_003_600 };
    let token = encode_token(&claims, &s).expect("encoding failed");
    let decoded = decode_token(&token, &s, 1_000_500).expect("decoding failed");
    assert_eq!(decoded, claims);
}

#[test]
fn decode_at_exact_expiry_still_succeeds() {
    let s = secret();
    let claims = Claims { sub: String::from("u"), iat: 10, exp: 3610 };
    let token = encode_token(&claims, &s).expect("encoding failed");
    assert!(decode_token(&token, &s, 3610).is_ok());
}

#[test]
fn decode_after_expiry_fails_expired() {
    let s = secret();
    let claims = Claims { sub: String::from("user-17"), iat: 10, exp: 3610 };
    let token = encode_token(&claims, &s).expect("encoding failed");
    let r = decode_token(&token, &s, 3611);
    assert_eq!(r, Err(TokenError::Expired));
}

#[test]
fn decode_with_flipped_signature_byte_fails() {
    let s = secret();
    let claims = Claims { sub: String::from("user-17"), iat: 10, exp: 3610 };
    let token = encode_token(&claims, &s).expect("encoding failed");
    let mut bytes = token.into_bytes();
    let last = *bytes.last().unwrap();
    *bytes.last_mut().unwrap() = if last == b'A' { b'B' } else { b'A' };
    let tampered = String::from_utf8(bytes).unwrap();
    let r = decode_token(&tampered, &s, 100);
    assert!(r.is_err());
    assert_ne!(r, Err(TokenError::Expired));
}

#[test]
fn decode_under_other_secret_fails() {
    let s1 = secret();
    let s2 = b"a-different-secret".to_vec();
    let claims = Claims { sub: String::from("user-17"), iat: 10, exp: 3610 };
    let token = encode_token(&claims, &s1).expect("encoding failed");
    let r = decode_token(&token, &s2, 100);
    assert_eq!(r, Err(TokenError::InvalidSignature));
}

#[test]
fn decode_rejects_non_token_strings() {
    let s = secret();
    assert_eq!(decode_token(&String::from("junk"), &s, 0), Err(TokenError::Malformed));
    assert!(decode_token(&String::from("a.b.c"), &s, 0).is_err());
    assert!(decode_token(&String::new(), &s, 0).is_err());
}

#[test]
fn token_has_three_dot_separated_parts() {
    let s = secret();
    let claims = Claims { sub: String::from("user-17"), iat: 10, exp: 3610 };
    let token = encode_token(&claims, &s).expect("encoding failed");
    assert_eq!(token.split('.').count(), 3);
}
