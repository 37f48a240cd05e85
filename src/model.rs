//! Records of the credential store and the request and response shapes of the auth routes.
use vstd::prelude::*;

verus! {

/// A point in time: seconds since the Unix epoch and the nanoseconds past that second.
#[derive(Clone, Copy, Debug, PartialEq, Eq, Structural)]
pub struct Timestamp {
    pub secs: i64,
    pub nanos: u32,
}

/// A row of the credential store. `password` holds the Argon2 PHC string, never the plaintext.
#[derive(Clone, Debug)]
pub struct UserModel {
    pub id: i32,
    pub name: Option<String>,
    pub username: String,
    pub email: String,
    pub password: String,
    pub created_at: Option<Timestamp>,
    pub updated_at: Option<Timestamp>,
}

/// The outbound shape of a user: every field of the record but the password hash.
#[derive(Clone, Debug)]
pub struct UserDataSchema {
    pub id: i32,
    pub name: Option<String>,
    pub username: String,
    pub email: String,
    pub created_at: Option<Timestamp>,
    pub updated_at: Option<Timestamp>,
}

/// The body of a registration.
#[derive(Clone, Debug)]
pub struct RegisterUserSchema {
    pub username: String,
    pub email: String,
    pub password: String,
}

/// The body of a login.
#[derive(Clone, Debug)]
pub struct LoginUserSchema {
    pub email: String,
    pub password: String,
}

/// Process-wide settings, read once at startup.
#[derive(Clone, Debug)]
pub struct Env {
    pub jwt_secret: String,
}

/// The credential store could not answer.
#[derive(Clone, Copy, Debug, PartialEq, Eq, Structural)]
pub struct StoreFailure;

pub open spec fn opt_seq(o: Option<String>) -> Option<Seq<char>> {
    match o {
        Some(s) => Some(s@),
        None => None,
    }
}

pub open spec fn same_text(a: Option<String>, b: Option<String>) -> bool {
    opt_seq(a) == opt_seq(b)
}

/// Copies an optional string, keeping its text.
pub fn clone_opt(o: &Option<String>) -> (r: Option<String>)
    ensures
        same_text(r, *o),
{
    match o {
        Some(s) => Some(s.clone()),
        None => None,
    }
}

} // verus!
