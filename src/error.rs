//! The failure taxonomy of the auth flow and the one place where it becomes a response envelope.
use vstd::prelude::*;

verus! {

/// Why a request was not authenticated. The three causes are told apart only by message.
#[derive(Clone, Copy, Debug, PartialEq, Eq, Structural)]
pub enum Unauthenticated {
    /// No token in the cookie and no bearer header.
    NotLoggedIn,
    /// A token was presented but did not decode: malformed, forged or expired alike.
    InvalidToken,
    /// The token is sound but its subject is no longer in the credential store.
    UserGone,
}

/// What failed on the server's side; the detail is never shown to the client.
#[derive(Clone, Copy, Debug, PartialEq, Eq, Structural)]
pub enum Internal {
    /// The credential store could not be read or written.
    Store,
    /// The password hasher failed.
    Hashing,
    /// A token could not be signed.
    Signing,
}

/// A failure of the auth flow, as handlers return it.
#[derive(Clone, Copy, Debug, PartialEq, Eq, Structural)]
pub enum AuthError {
    /// The email or username is already registered.
    Conflict,
    /// Login failed; the same for an unknown email and a wrong password.
    BadCredentials,
    /// The request carries no usable identity.
    Unauthenticated(Unauthenticated),
    /// A server-side failure.
    Internal(Internal),
}

/// The JSON envelope `{status, message}` of a refused request.
#[derive(Clone, Debug)]
pub struct ErrorResponse {
    pub status: &'static str,
    pub message: String,
}

/// The HTTP status code of each failure.
pub open spec fn status_of(e: AuthError) -> u16 {
    match e {
        AuthError::Conflict => 409,
        AuthError::BadCredentials => 400,
        AuthError::Unauthenticated(_) => 401,
        AuthError::Internal(_) => 500,
    }
}

/// The client-visible message of each failure.
pub open spec fn message_of(e: AuthError) -> Seq<char> {
    match e {
        AuthError::Conflict => "User already exists, please login"@,
        AuthError::BadCredentials => "Invalid email or password"@,
        AuthError::Unauthenticated(Unauthenticated::NotLoggedIn) => "You are not logged in, please login and try again"@,
        AuthError::Unauthenticated(Unauthenticated::InvalidToken) => "Invalid token"@,
        AuthError::Unauthenticated(Unauthenticated::UserGone) => "The user belonging to this token no longer exists"@,
        AuthError::Internal(Internal::Store) => "Error fetching user from database"@,
        AuthError::Internal(Internal::Hashing) => "Error while hashing password"@,
        AuthError::Internal(Internal::Signing) => "Error while generating token"@,
    }
}

impl AuthError {
    /// The HTTP status code of this failure.
    pub fn status_code(&self) -> (r: u16)
        ensures
            r == status_of(*self),
    {
        match self {
            AuthError::Conflict => 409,
            AuthError::BadCredentials => 400,
            AuthError::Unauthenticated(_) => 401,
            AuthError::Internal(_) => 500,
        }
    }

    /// The client-visible message of this failure.
    pub fn message(&self) -> (r: String)
        ensures
            r@ == message_of(*self),
    {
        let m: &str = match self {
            AuthError::Conflict => "User already exists, please login",
            AuthError::BadCredentials => "Invalid email or password",
            AuthError::Unauthenticated(Unauthenticated::NotLoggedIn) => "You are not logged in, please login and try again",
            AuthError::Unauthenticated(Unauthenticated::InvalidToken) => "Invalid token",
            AuthError::Unauthenticated(Unauthenticated::UserGone) => "The user belonging to this token no longer exists",
            AuthError::Internal(Internal::Store) => "Error fetching user from database",
            AuthError::Internal(Internal::Hashing) => "Error while hashing password",
            AuthError::Internal(Internal::Signing) => "Error while generating token",
        };
        m.to_owned()
    }

    /// The response for this failure: its status code and the `{status: "fail", message}` envelope.
    pub fn to_response(&self) -> (r: (u16, ErrorResponse))
        ensures
            r.0 == status_of(*self),
            r.1.status@ == "fail"@,
            r.1.message@ == message_of(*self),
    {
        (self.status_code(), ErrorResponse { status: "fail", message: self.message() })
    }
}

} // verus!
