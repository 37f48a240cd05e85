//! Salted, memory-hard password hashing (Argon2id in PHC string form).
use vstd::prelude::*;

use argon2::password_hash::{PasswordHash, PasswordHasher, PasswordVerifier, SaltString};
use argon2::Argon2;
use vstd::utf8::encode_utf8;

verus! {

/// Whether Argon2 accepts `password` against the stored PHC string `stored`: the string parses,
/// and recomputing the digest with its parameters and salt gives its digest.
pub uninterp spec fn argon2_accepts(password: Seq<u8>, stored: Seq<char>) -> bool;

/// The declared salt type of the password-hash library.
#[verifier::external_type_specification]
#[verifier::external_body]
pub struct ExSaltString(SaltString);

/// The declared error type of the password-hash library.
#[verifier::external_type_specification]
#[verifier::external_body]
pub struct ExHashError(argon2::password_hash::Error);

/// The declared error type of the random source.
#[verifier::external_type_specification]
#[verifier::external_body]
pub struct ExRandError(rand_core::Error);

/// Bytes of salt drawn for each hash.
pub const SALT_BYTES: usize = 16;

/// The start of every hash this library makes: Argon2id, version 19 (0x13), 19456 KiB of
/// memory, two passes, one lane; the salt and the digest follow.
pub const ARGON2_PREFIX: &'static str = "$argon2id$v=19$m=19456,t=2,p=1$";

/// Relies on `RngCore::try_fill_bytes` of the operating system's random source: `n` random
/// bytes, or the source's error.
#[verifier::external_body]
fn os_random_bytes(n: usize) -> (r: Result<Vec<u8>, rand_core::Error>)
    ensures
        r is Ok ==> r->Ok_0@.len() == n,
{
    let mut bytes = vec![0u8; n];
    rand_core::RngCore::try_fill_bytes(&mut rand_core::OsRng, &mut bytes).map(|_| bytes)
}

/// Relies on `SaltString::encode_b64`: it fails only when the B64 text would exceed 64
/// characters; 3 bytes or more give the 4 characters that a salt needs.
#[verifier::external_body]
fn salt_from_bytes(bytes: &[u8]) -> (r: Result<SaltString, argon2::password_hash::Error>)
    requires
        3 <= bytes@.len() <= 48,
    ensures
        r is Ok,
{
    SaltString::encode_b64(bytes)
}

/// Relies on `PasswordHasher::hash_password` of `Argon2::default()`: the PHC string it encodes
/// starts with the algorithm, version and parameters of the default hasher, then embeds the salt
/// and the digest, so that `verify_password` recomputes the same digest from the same password.
#[verifier::external_body]
fn argon2_hash(password: &[u8], salt: &SaltString) -> (r: Result<String, argon2::password_hash::Error>)
    ensures
        r is Ok ==> argon2_accepts(password@, r->Ok_0@),
        r is Ok ==> is_argon2_default_phc(r->Ok_0@),
{
    Argon2::default().hash_password(password, salt).map(|h| h.to_string())
}

/// Relies on `PasswordHash::new` and `PasswordVerifier::verify_password` of `Argon2::default()`:
/// a stored string that does not parse, or a digest that differs, gives `false`.
#[verifier::external_body]
fn argon2_verify(password: &[u8], stored: &str) -> (r: bool)
    ensures
        r == argon2_accepts(password@, stored@),
{
    match PasswordHash::new(stored) {
        Ok(parsed) => Argon2::default().verify_password(password, &parsed).is_ok(),
        Err(_) => false,
    }
}

/// `h` is a PHC string of the default Argon2id hasher: the fixed prefix, then salt and digest.
pub open spec fn is_argon2_default_phc(h: Seq<char>) -> bool {
    h.len() > ARGON2_PREFIX@.len() && h.subrange(0, ARGON2_PREFIX@.len() as int) == ARGON2_PREFIX@
}

/// Whether `verify_password(password, stored)` holds.
pub open spec fn password_verifies(password: Seq<char>, stored: Seq<char>) -> bool {
    argon2_accepts(encode_utf8(password), stored)
}

/// Hashes `password` under a fresh random salt. Whatever the salt, a string that is returned
/// is an Argon2id PHC string that verifies against `password`. `None` when the random source
/// or the hasher fails.
pub fn hash_password(password: &str) -> (r: Option<String>)
    ensures
        r is Some ==> password_verifies(password@, r->0@),
        r is Some ==> is_argon2_default_phc(r->0@),
{
    let bytes = match os_random_bytes(SALT_BYTES) {
        Ok(b) => b,
        Err(_) => return None,
    };
    let salt = match salt_from_bytes(bytes.as_slice()) {
        Ok(s) => s,
        Err(_) => return None,
    };
    match argon2_hash(password.as_bytes(), &salt) {
        Ok(h) => Some(h),
        Err(_) => None,
    }
}

/// Whether `password` matches the stored hash `stored`. A malformed stored hash gives `false`,
/// exactly as a mismatch does.
pub fn verify_password(password: &str, stored: &str) -> (r: bool)
    ensures
        r == password_verifies(password@, stored@),
{
    argon2_verify(password.as_bytes(), stored)
}

} // verus!
