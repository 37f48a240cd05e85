//! The guard in front of every protected route: find a token, decode it, resolve its subject.
use vstd::prelude::*;
use vstd::string::StrSliceExecFns;

use crate::error::{AuthError, Unauthenticated};
use crate::model::{opt_seq, StoreFailure, UserModel};
use crate::token::{decode_token, decoded, hs256_claims, judged_claims, sealed, TokenError};

verus! {

/// Name of the cookie that carries the session token.
pub const TOKEN_COOKIE: &'static str = "token";

/// The scheme prefix of an `Authorization` header that carries a token.
pub open spec fn bearer_prefix() -> Seq<char> {
    seq!['B', 'e', 'a', 'r', 'e', 'r', ' ']
}

/// The token of an `Authorization` header value: what follows `Bearer `, if it starts so.
pub open spec fn bearer_token(h: Seq<char>) -> Option<Seq<char>> {
    if h.len() >= 7 && h.subrange(0, 7) == bearer_prefix() {
        Some(h.subrange(7, h.len() as int))
    } else {
        None
    }
}

/// The token a request presents: the cookie's value if the cookie is there, else the bearer
/// token of the `Authorization` header.
pub open spec fn presented_token(cookie: Option<Seq<char>>, authorization: Option<Seq<char>>) -> Option<Seq<char>> {
    match cookie {
        Some(t) => Some(t),
        None => match authorization {
            Some(h) => bearer_token(h),
            None => None,
        },
    }
}

/// The outcome of the guard's first two steps: the subject of a sound token, or the rejection.
/// Every way a token can fail to decode gives the same rejection.
pub open spec fn authenticated(
    cookie: Option<Seq<char>>,
    authorization: Option<Seq<char>>,
    secret: Seq<u8>,
    now: int,
) -> Result<Seq<char>, AuthError> {
    match presented_token(cookie, authorization) {
        None => Err(AuthError::Unauthenticated(Unauthenticated::NotLoggedIn)),
        Some(t) => match decoded(t, secret, now) {
            Ok(c) => Ok(c.sub),
            Err(_) => Err(AuthError::Unauthenticated(Unauthenticated::InvalidToken)),
        },
    }
}

pub open spec fn str_opt(o: Option<&str>) -> Option<Seq<char>> {
    match o {
        Some(s) => Some(s@),
        None => None,
    }
}

pub open spec fn subject_view(r: Result<String, AuthError>) -> Result<Seq<char>, AuthError> {
    match r {
        Ok(s) => Ok(s@),
        Err(e) => Err(e),
    }
}

/// Whether the header value starts with `Bearer `.
fn has_bearer_prefix(h: &str) -> (r: bool)
    ensures
        r == (h@.len() >= 7 && h@.subrange(0, 7) == bearer_prefix()),
{
    let n = h.unicode_len();
    if n < 7 {
        return false;
    }
    let r = h.get_char(0) == 'B' && h.get_char(1) == 'e' && h.get_char(2) == 'a' && h.get_char(3) == 'r'
        && h.get_char(4) == 'e' && h.get_char(5) == 'r' && h.get_char(6) == ' ';
    if r {
        assert(h@.subrange(0, 7) =~= bearer_prefix());
    } else {
        assert(h@.subrange(0, 7) != bearer_prefix()) by {
            if h@.subrange(0, 7) == bearer_prefix() {
                assert(h@.subrange(0, 7)[0] == h@[0]);
                assert(h@.subrange(0, 7)[1] == h@[1]);
                assert(h@.subrange(0, 7)[2] == h@[2]);
                assert(h@.subrange(0, 7)[3] == h@[3]);
                assert(h@.subrange(0, 7)[4] == h@[4]);
                assert(h@.subrange(0, 7)[5] == h@[5]);
                assert(h@.subrange(0, 7)[6] == h@[6]);
            }
        }
    }
    r
}

/// The token of a request: the `token` cookie's value first, else a bearer token.
pub fn extract_token(cookie: Option<&str>, authorization: Option<&str>) -> (r: Option<String>)
    ensures
        opt_seq(r) == presented_token(str_opt(cookie), str_opt(authorization)),
{
    match cookie {
        Some(t) => Some(t.to_owned()),
        None => match authorization {
            Some(h) => {
                if has_bearer_prefix(h) {
                    let n = h.unicode_len();
                    Some(h.substring_char(7, n).to_owned())
                } else {
                    None
                }
            },
            None => None,
        },
    }
}

/// Finds and decodes the request's token at time `now`, giving the subject it was issued for.
pub fn authenticate(cookie: Option<&str>, authorization: Option<&str>, secret: &[u8], now: u64) -> (r: Result<String, AuthError>)
    ensures
        subject_view(r) == authenticated(str_opt(cookie), str_opt(authorization), secret@, now as int),
{
    match extract_token(cookie, authorization) {
        None => Err(AuthError::Unauthenticated(Unauthenticated::NotLoggedIn)),
        Some(t) => match decode_token(t.as_str(), secret, now) {
            Ok(c) => Ok(c.sub),
            Err(_) => Err(AuthError::Unauthenticated(Unauthenticated::InvalidToken)),
        },
    }
}

/// The outcome of the guard's last step, given what the credential store answered for the subject.
pub open spec fn resolved(lookup: Result<Option<UserModel>, StoreFailure>) -> Result<UserModel, AuthError> {
    match lookup {
        Err(_) => Err(AuthError::Internal(crate::error::Internal::Store)),
        Ok(None) => Err(AuthError::Unauthenticated(Unauthenticated::UserGone)),
        Ok(Some(u)) => Ok(u),
    }
}

/// Turns the credential store's answer for the token's subject into the request's identity.
pub fn resolve_user(lookup: Result<Option<UserModel>, StoreFailure>) -> (r: Result<UserModel, AuthError>)
    ensures
        r == resolved(lookup),
{
    match lookup {
        Err(_) => Err(AuthError::Internal(crate::error::Internal::Store)),
        Ok(None) => Err(AuthError::Unauthenticated(Unauthenticated::UserGone)),
        Ok(Some(u)) => Ok(u),
    }
}

/// The guard's three rejections: a request without a token is not logged in; a sound token that
/// has expired is an invalid token; a sound token whose subject is gone names that.
pub proof fn lemma_guard_rejections(token: Seq<char>, secret: Seq<u8>, sub: Seq<char>, iat: u64, exp: u64, now: int)
    ensures
        authenticated(None, None, secret, now) == Err::<Seq<char>, _>(AuthError::Unauthenticated(Unauthenticated::NotLoggedIn)),
        hs256_claims(token, secret) == sealed(sub, iat, exp) && now > exp ==> authenticated(Some(token), None, secret, now) == Err::<Seq<char>, _>(AuthError::Unauthenticated(Unauthenticated::InvalidToken)),
        hs256_claims(token, secret) == sealed(sub, iat, exp) && now > exp ==> authenticated(None, Some(bearer_prefix() + token), secret, now) == Err::<Seq<char>, _>(AuthError::Unauthenticated(Unauthenticated::InvalidToken)),
        resolved(Ok(None)) == Err::<UserModel, _>(AuthError::Unauthenticated(Unauthenticated::UserGone)),
{
    let h = bearer_prefix() + token;
    assert(h.subrange(0, 7) =~= bearer_prefix());
    assert(h.subrange(7, h.len() as int) =~= token);
}

} // verus!
