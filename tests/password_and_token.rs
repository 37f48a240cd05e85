use blogrs::password::{hash_password, verify_password};
use blogrs::token::{check_claims, decode_token, issue_token, TokenError, TOKEN_VALIDITY_SECS};

const SECRET: &[u8] = b"server-side signing secret";
const NOW: u64 = 1_700_000_000;

#[test]
fn hashed_password_verifies() {
    let h = hash_password("pw123").expect("hashing succeeds");
    assert!(verify_password("pw123", &h));
}

#[test]
fn other_password_does_not_verify() {
    let h = hash_password("pw123").expect("hashing succeeds");
    assert!(!verify_password("pw124", &h));
    assert!(!verify_password("", &h));
}

#[test]
fn hash_is_not_the_plaintext() {
    let h = hash_password("pw123").expect("hashing succeeds");
    assert_ne!(h, "pw123");
    assert!(h.starts_with("$argon2id$v=19$m=19456,t=2,p=1$"));
    assert!(h.len() > blogrs::password::ARGON2_PREFIX.len());
}

#[test]
fn two_hashes_differ_and_both_verify() {
    let a = hash_password("same password").expect("hashing succeeds");
    let b = hash_password("same password").expect("hashing succeeds");
    assert_ne!(a, b);
    assert!(verify_password("same password", &a));
    assert!(verify_password("same password", &b));
}

#[test]
fn malformed_stored_hash_is_a_plain_mismatch() {
    assert!(!verify_password("pw123", "not a phc string"));
    assert!(!verify_password("pw123", ""));
}

#[test]
fn issued_token_decodes_to_its_subject() {
    let t = issue_token("alice@x.com", SECRET, NOW, TOKEN_VALIDITY_SECS).expect("issued");
    let c = decode_token(&t, SECRET, NOW).expect("decodes");
    assert_eq!(c.sub, "alice@x.com");
    assert_eq!(c.iat, NOW);
    assert_eq!(c.exp, NOW + 86400);
}

#[test]
fn token_still_valid_at_its_expiry() {
    let t = issue_token("alice@x.com", SECRET, NOW, TOKEN_VALIDITY_SECS).expect("issued");
    assert!(decode_token(&t, SECRET, NOW + 86400).is_ok());
    assert_eq!(decode_token(&t, SECRET, NOW + 86401).unwrap_err(), TokenError::Expired);
}

#[test]
fn token_expired_after_25_hours() {
    let t = issue_token("alice@x.com", SECRET, NOW, TOKEN_VALIDITY_SECS).expect("issued");
    assert_eq!(decode_token(&t, SECRET, NOW + 25 * 3600).unwrap_err(), TokenError::Expired);
}

#[test]
fn token_under_wrong_secret_has_invalid_signature() {
    let t = issue_token("alice@x.com", SECRET, NOW, TOKEN_VALIDITY_SECS).expect("issued");
    assert_eq!(decode_token(&t, b"another secret", NOW).unwrap_err(), TokenError::InvalidSignature);
}

#[test]
fn tampered_token_has_invalid_signature() {
    let t = issue_token("alice@x.com", SECRET, NOW, TOKEN_VALIDITY_SECS).expect("issued");
    let forged = issue_token("mallory@x.com", b"guessed", NOW, TOKEN_VALIDITY_SECS).expect("issued");
    let parts: Vec<&str> = t.split('.').collect();
    let forged_parts: Vec<&str> = forged.split('.').collect();
    let spliced = format!("{}.{}.{}", parts[0], forged_parts[1], parts[2]);
    assert_eq!(decode_token(&spliced, SECRET, NOW).unwrap_err(), TokenError::InvalidSignature);
}

#[test]
fn garbage_token_is_malformed() {
    assert_eq!(decode_token("not-a-token", SECRET, NOW).unwrap_err(), TokenError::Malformed);
    assert_eq!(decode_token("", SECRET, NOW).unwrap_err(), TokenError::Malformed);
}

#[test]
fn issue_fails_when_expiry_overflows() {
    assert!(issue_token("alice@x.com", SECRET, u64::MAX - 10, TOKEN_VALIDITY_SECS).is_none());
    assert!(issue_token("alice@x.com", SECRET, u64::MAX - 10, 10).is_some());
}

#[test]
fn check_claims_judges_presence_and_expiry() {
    let ok = check_claims(Ok((Some("bob@x.com".to_string()), Some(5), Some(10))), 10).expect("valid");
    assert_eq!(ok.sub, "bob@x.com");
    assert_eq!((ok.iat, ok.exp), (5, 10));
    assert_eq!(check_claims(Ok((Some("bob@x.com".to_string()), Some(5), Some(10))), 11).unwrap_err(), TokenError::Expired);
    assert_eq!(check_claims(Ok((None, Some(5), Some(10))), 0).unwrap_err(), TokenError::Malformed);
    assert_eq!(check_claims(Ok((Some("b".to_string()), None, Some(10))), 0).unwrap_err(), TokenError::Malformed);
    assert_eq!(check_claims(Ok((Some("b".to_string()), Some(5), None)), 0).unwrap_err(), TokenError::Malformed);
    assert_eq!(check_claims(Err(TokenError::InvalidSignature), 0).unwrap_err(), TokenError::InvalidSignature);
}

#[test]
fn token_is_not_empty() {
    let t = issue_token("alice@x.com", SECRET, NOW, TOKEN_VALIDITY_SECS).expect("issued");
    assert!(!t.is_empty());
    assert_eq!(t.split('.').count(), 3);
}

#[test]
fn zero_validity_is_refused() {
    assert!(issue_token("alice@x.com", SECRET, NOW, 0).is_none());
    assert!(issue_token("alice@x.com", SECRET, NOW, 1).is_some());
}

#[test]
fn token_not_valid_before_issued_at() {
    let t = issue_token("alice@x.com", SECRET, NOW, TOKEN_VALIDITY_SECS).expect("issued");
    assert_eq!(decode_token(&t, SECRET, NOW - 1).unwrap_err(), TokenError::NotYetValid);
    assert_eq!(check_claims(Ok((Some("b".to_string()), Some(5), Some(10))), 4).unwrap_err(), TokenError::NotYetValid);
}
