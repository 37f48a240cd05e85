//! The decisions of the register, login, logout and current-user handlers. The credential
//! store is consulted by the caller; these functions take its answers as arguments.
use vstd::prelude::*;

use crate::error::{AuthError, Internal};
use crate::model::{clone_opt, same_text, RegisterUserSchema, StoreFailure, UserDataSchema, UserModel};
use crate::password::{hash_password, is_argon2_default_phc, password_verifies, verify_password};
use crate::session::{authenticated, bearer_prefix, TOKEN_COOKIE};
use crate::token::{decoded, issuable, issue_token, ClaimsView, TokenError, TOKEN_VALIDITY_SECS};

verus! {

/// Max-Age of the session cookie, in seconds: seven days. It outlives the token on purpose;
/// the guard refuses the token once its own expiry has passed.
pub const SESSION_COOKIE_MAX_AGE: i64 = 604800;

/// Max-Age that tells the client to drop the session cookie.
pub const CLEARED_COOKIE_MAX_AGE: i64 = -3600;

/// `c` lower-cased if it is an ASCII capital, else unchanged.
pub open spec fn ascii_lower_char(c: char) -> char {
    if 'A' <= c <= 'Z' {
        ((c as u32) + 32) as char
    } else {
        c
    }
}

/// `s` with every ASCII capital lower-cased.
pub open spec fn ascii_lower(s: Seq<char>) -> Seq<char> {
    s.map_values(|c: char| ascii_lower_char(c))
}

/// Relies on `str::to_ascii_lowercase`: ASCII capitals become lower case, all else stays.
#[verifier::external_body]
fn to_ascii_lower(s: &str) -> (r: String)
    ensures
        r@ == ascii_lower(s@),
{
    s.to_ascii_lowercase()
}

/// The form in which emails are stored and looked up: ASCII capitals lower-cased.
pub fn normalize_email(email: &str) -> (r: String)
    ensures
        r@ == ascii_lower(email@),
{
    to_ascii_lower(email)
}

/// `d` is the outbound form of `u`: the same fields, no password.
pub open spec fn is_user_data_of(d: UserDataSchema, u: UserModel) -> bool {
    &&& d.id == u.id
    &&& same_text(d.name, u.name)
    &&& d.username@ == u.username@
    &&& d.email@ == u.email@
    &&& d.created_at == u.created_at
    &&& d.updated_at == u.updated_at
}

/// The outbound form of a user record, without its password hash.
pub fn filter_user_data(user: &UserModel) -> (r: UserDataSchema)
    ensures
        is_user_data_of(r, *user),
{
    UserDataSchema {
        id: user.id,
        name: clone_opt(&user.name),
        username: user.username.clone(),
        email: user.email.clone(),
        created_at: user.created_at,
        updated_at: user.updated_at,
    }
}

/// What registration makes of the store's answer to "is this email or username taken?".
pub open spec fn registration_verdict(taken: Result<Option<bool>, StoreFailure>) -> Result<(), AuthError> {
    match taken {
        Err(_) => Err(AuthError::Internal(Internal::Store)),
        Ok(Some(true)) => Err(AuthError::Conflict),
        Ok(_) => Ok(()),
    }
}

/// Refuses a registration whose email or username the store already holds.
pub fn check_not_registered(taken: Result<Option<bool>, StoreFailure>) -> (r: Result<(), AuthError>)
    ensures
        r == registration_verdict(taken),
{
    match taken {
        Err(_) => Err(AuthError::Internal(Internal::Store)),
        Ok(Some(true)) => Err(AuthError::Conflict),
        Ok(_) => Ok(()),
    }
}

/// A credential ready to be inserted into the store.
#[derive(Clone, Debug)]
pub struct NewUser {
    pub username: String,
    pub email: String,
    pub password_hash: String,
}

/// Builds the record to insert for a registration: the username as given, the email
/// lower-cased, and a salted hash that verifies against the password.
pub fn prepare_new_user(payload: &RegisterUserSchema) -> (r: Result<NewUser, AuthError>)
    ensures
        r is Err ==> r->Err_0 == AuthError::Internal(Internal::Hashing),
        r is Ok ==> r->Ok_0.username@ == payload.username@,
        r is Ok ==> r->Ok_0.email@ == ascii_lower(payload.email@),
        r is Ok ==> password_verifies(payload.password@, r->Ok_0.password_hash@),
        r is Ok ==> is_argon2_default_phc(r->Ok_0.password_hash@),
{
    match hash_password(payload.password.as_str()) {
        None => Err(AuthError::Internal(Internal::Hashing)),
        Some(h) => Ok(
            NewUser { username: payload.username.clone(), email: normalize_email(payload.email.as_str()), password_hash: h },
        ),
    }
}

/// The response data of a registration, given what the store's insert returned.
pub fn registered_user(inserted: Result<UserModel, StoreFailure>) -> (r: Result<UserDataSchema, AuthError>)
    ensures
        inserted is Err <==> r is Err,
        r is Err ==> r->Err_0 == AuthError::Internal(Internal::Store),
        r is Ok ==> is_user_data_of(r->Ok_0, inserted->Ok_0),
{
    match inserted {
        Err(_) => Err(AuthError::Internal(Internal::Store)),
        Ok(u) => Ok(filter_user_data(&u)),
    }
}

/// What login makes of the store's answer for the email and the password given. An unknown
/// email and a wrong password give the same failure.
pub open spec fn login_verdict(found: Result<Option<UserModel>, StoreFailure>, password: &str) -> Result<UserModel, AuthError> {
    match found {
        Err(_) => Err(AuthError::Internal(Internal::Store)),
        Ok(None) => Err(AuthError::BadCredentials),
        Ok(Some(u)) => if password_verifies(password@, u.password@) {
            Ok(u)
        } else {
            Err(AuthError::BadCredentials)
        },
    }
}

/// Checks a login against the store's answer for the lower-cased email.
pub fn check_login(found: Result<Option<UserModel>, StoreFailure>, password: &str) -> (r: Result<UserModel, AuthError>)
    ensures
        r == login_verdict(found, password),
{
    match found {
        Err(_) => Err(AuthError::Internal(Internal::Store)),
        Ok(None) => Err(AuthError::BadCredentials),
        Ok(Some(u)) => {
            if verify_password(password, u.password.as_str()) {
                Ok(u)
            } else {
                Err(AuthError::BadCredentials)
            }
        },
    }
}

/// The session cookie as the client is told to store it.
#[derive(Clone, Debug)]
pub struct SessionCookie {
    pub name: &'static str,
    pub value: String,
    pub path: &'static str,
    pub max_age_secs: i64,
    pub http_only: bool,
    pub same_site_lax: bool,
}

/// `c` is the `token` cookie on path `/`, http-only and same-site lax, with this value and max-age.
pub open spec fn is_session_cookie(c: SessionCookie, value: Seq<char>, max_age: i64) -> bool {
    &&& c.name@ == TOKEN_COOKIE@
    &&& c.value@ == value
    &&& c.path@ == "/"@
    &&& c.max_age_secs == max_age
    &&& c.http_only
    &&& c.same_site_lax
}

/// A successful login: the token, and the cookie that carries it.
#[derive(Clone, Debug)]
pub struct LoginSession {
    pub token: String,
    pub cookie: SessionCookie,
}

/// Issues the session of a user whose password was checked: a token whose subject is the
/// user's email, valid for 24 hours from `now`, and a seven-day cookie that carries it.
pub fn start_session(user: &UserModel, secret: &[u8], now: u64) -> (r: Result<LoginSession, AuthError>)
    ensures
        !issuable(now as int, TOKEN_VALIDITY_SECS as int) ==> r is Err,
        issuable(now as int, TOKEN_VALIDITY_SECS as int) ==> r is Ok,
        r is Ok ==> r->Ok_0.token@.len() > 0,
        r is Err ==> r->Err_0 == AuthError::Internal(Internal::Signing),
        r is Ok ==> decoded(r->Ok_0.token@, secret@, now as int) == Ok::<_, TokenError>(ClaimsView { sub: user.email@, iat: now as int, exp: now + TOKEN_VALIDITY_SECS }),
        r is Ok ==> is_session_cookie(r->Ok_0.cookie, r->Ok_0.token@, SESSION_COOKIE_MAX_AGE),
        r is Ok ==> authenticated(Some(r->Ok_0.token@), None, secret@, now as int) == Ok::<_, AuthError>(user.email@),
        r is Ok ==> authenticated(None, Some(bearer_prefix() + r->Ok_0.token@), secret@, now as int) == Ok::<_, AuthError>(user.email@),
{
    match issue_token(user.email.as_str(), secret, now, TOKEN_VALIDITY_SECS) {
        None => Err(AuthError::Internal(Internal::Signing)),
        Some(token) => {
            let value = token.clone();
            proof {
                let h = bearer_prefix() + token@;
                assert(h.subrange(0, 7) =~= bearer_prefix());
                assert(h.subrange(7, h.len() as int) =~= token@);
            }
            Ok(
                LoginSession {
                    token,
                    cookie: SessionCookie {
                        name: TOKEN_COOKIE,
                        value,
                        path: "/",
                        max_age_secs: SESSION_COOKIE_MAX_AGE,
                        http_only: true,
                        same_site_lax: true,
                    },
                },
            )
        },
    }
}

/// The cookie that logs a client out: the session cookie emptied, with a negative max-age.
pub fn logout_cookie() -> (r: SessionCookie)
    ensures
        is_session_cookie(r, Seq::empty(), CLEARED_COOKIE_MAX_AGE),
{
    SessionCookie {
        name: TOKEN_COOKIE,
        value: String::new(),
        path: "/",
        max_age_secs: CLEARED_COOKIE_MAX_AGE,
        http_only: true,
        same_site_lax: true,
    }
}

/// Login failures do not tell an unknown email from a wrong password.
pub proof fn lemma_login_failures_alike(user: UserModel, password: &str)
    ensures
        login_verdict(Ok(None), password) == Err::<UserModel, _>(AuthError::BadCredentials),
        !password_verifies(password@, user.password@) ==> login_verdict(Ok(Some(user)), password) == login_verdict(Ok(None), password),
{
}

} // verus!
