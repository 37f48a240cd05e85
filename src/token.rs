//! Signed, time-bounded session tokens (HS256 JSON Web Tokens).
use vstd::prelude::*;

use jsonwebtoken::errors::ErrorKind;
use jsonwebtoken::errors::Error as JwtError;
use jsonwebtoken::{Algorithm, DecodingKey, EncodingKey, Header, Validation};

verus! {

/// Seconds for which an issued session token stays valid: 24 hours.
pub const TOKEN_VALIDITY_SECS: u64 = 86400;

/// The claim set carried by a session token.
#[derive(Clone, Debug)]
pub struct TokenClaims {
    /// The subject: the email address of the account the token was issued for.
    pub sub: String,
    /// Issued-at, in seconds since the Unix epoch.
    pub iat: u64,
    /// Expiry, in seconds since the Unix epoch.
    pub exp: u64,
}

/// Why a token was refused.
#[derive(Clone, Copy, Debug, PartialEq, Eq, Structural)]
pub enum TokenError {
    /// The token is not a well-formed signed claim set.
    Malformed,
    /// The signature does not match the secret.
    InvalidSignature,
    /// The signature holds but the expiry lies in the past.
    Expired,
    /// The signature holds but the issued-at lies in the future.
    NotYetValid,
}

/// Mathematical view of a claim set: subject, issued-at, expiry.
pub struct ClaimsView {
    pub sub: Seq<char>,
    pub iat: int,
    pub exp: int,
}

impl View for TokenClaims {
    type V = ClaimsView;

    open spec fn view(&self) -> ClaimsView {
        ClaimsView { sub: self.sub@, iat: self.iat as int, exp: self.exp as int }
    }
}

/// What the token library reads out of `token` once the signature under `secret` is checked:
/// the `sub`, `iat` and `exp` claims where present with the right JSON type, or the refusal.
pub uninterp spec fn hs256_claims(token: Seq<char>, secret: Seq<u8>) -> Result<
    (Option<Seq<char>>, Option<u64>, Option<u64>),
    TokenError,
>;

/// The declared error type of the token library.
#[verifier::external_type_specification]
#[verifier::external_body]
pub struct ExJwtError(jsonwebtoken::errors::Error);

/// The claims that the token library read out of a token: `sub`, `iat`, `exp`, each where present.
pub type OpenedClaims = (Option<String>, Option<u64>, Option<u64>);

/// Relies on `jsonwebtoken::encode` with the default HS256 header: the claims are written as a
/// JSON object `{sub, iat, exp}` and signed. With an HMAC key, the default header and a JSON map
/// neither serialising nor signing can fail, and the token is the three encoded parts joined by
/// dots. The token library's own `decode` under the same secret checks that signature and reads
/// the same three claims back.
#[verifier::external_body]
fn hs256_sign(sub: &str, iat: u64, exp: u64, secret: &[u8]) -> (r: Result<String, JwtError>)
    ensures
        r is Ok,
        r is Ok ==> r->Ok_0@.len() > 0,
        r is Ok ==> hs256_claims(r->Ok_0@, secret@) == sealed(sub@, iat, exp),
{
    let mut claims = serde_json::Map::new();
    claims.insert("sub".to_owned(), serde_json::Value::from(sub));
    claims.insert("iat".to_owned(), serde_json::Value::from(iat));
    claims.insert("exp".to_owned(), serde_json::Value::from(exp));
    jsonwebtoken::encode(&Header::default(), &claims, &EncodingKey::from_secret(secret))
}

/// Relies on `jsonwebtoken::decode` with HS256 and the library's expiry check switched off
/// (expiry is judged by `check_claims` against the caller's clock): the signature is verified
/// before any claim is read, and the outcome depends on the token and the secret alone.
#[verifier::external_body]
fn hs256_open(token: &str, secret: &[u8]) -> (r: Result<OpenedClaims, TokenError>)
    ensures
        opened_view(r) == hs256_claims(token@, secret@),
        r is Err ==> r->Err_0 != TokenError::Expired && r->Err_0 != TokenError::NotYetValid,
{
    let mut rules = Validation::new(Algorithm::HS256);
    rules.validate_exp = false;
    match jsonwebtoken::decode::<serde_json::Value>(token, &DecodingKey::from_secret(secret), &rules) {
        Ok(d) => Ok((d.claims["sub"].as_str().map(|s| s.to_owned()), d.claims["iat"].as_u64(), d.claims["exp"].as_u64())),
        Err(e) => match e.kind() {
            ErrorKind::InvalidSignature => Err(TokenError::InvalidSignature),
            _ => Err(TokenError::Malformed),
        },
    }
}

/// What a token sealed with the claims `sub`, `iat`, `exp` reads back as.
pub open spec fn sealed(sub: Seq<char>, iat: u64, exp: u64) -> Result<(Option<Seq<char>>, Option<u64>, Option<u64>), TokenError> {
    Ok((Some(sub), Some(iat), Some(exp)))
}

/// The spec view of what `hs256_open` hands back.
pub open spec fn opened_view(r: Result<OpenedClaims, TokenError>) -> Result<
    (Option<Seq<char>>, Option<u64>, Option<u64>),
    TokenError,
> {
    match r {
        Ok((s, i, e)) => Ok(
            (
                match s {
                    Some(t) => Some(t@),
                    None => None,
                },
                i,
                e,
            ),
        ),
        Err(k) => Err(k),
    }
}

/// The claim set that a decoded token stands for, judged at time `now`: all three claims must be
/// present, the token must not have expired (`now > exp`), and it must have been issued
/// (`now < iat` is refused).
pub open spec fn judged_claims(
    opened: Result<(Option<Seq<char>>, Option<u64>, Option<u64>), TokenError>,
    now: int,
) -> Result<ClaimsView, TokenError> {
    match opened {
        Err(k) => Err(k),
        Ok((Some(sub), Some(iat), Some(exp))) => if now > exp {
            Err(TokenError::Expired)
        } else if now < iat {
            Err(TokenError::NotYetValid)
        } else {
            Ok(ClaimsView { sub, iat: iat as int, exp: exp as int })
        },
        Ok(_) => Err(TokenError::Malformed),
    }
}

/// What `decode_token(token, secret, now)` returns.
pub open spec fn decoded(token: Seq<char>, secret: Seq<u8>, now: int) -> Result<ClaimsView, TokenError> {
    judged_claims(hs256_claims(token, secret), now)
}

pub open spec fn claims_result_view(r: Result<TokenClaims, TokenError>) -> Result<ClaimsView, TokenError> {
    match r {
        Ok(c) => Ok(c@),
        Err(k) => Err(k),
    }
}

/// Turns what the token library read out of a token into a claim set judged at `now`.
pub fn check_claims(
    opened: Result<OpenedClaims, TokenError>,
    now: u64,
) -> (r: Result<TokenClaims, TokenError>)
    ensures
        claims_result_view(r) == judged_claims(opened_view(opened), now as int),
{
    match opened {
        Err(k) => Err(k),
        Ok((Some(sub), Some(iat), Some(exp))) => {
            if now > exp {
                Err(TokenError::Expired)
            } else if now < iat {
                Err(TokenError::NotYetValid)
            } else {
                Ok(TokenClaims { sub, iat, exp })
            }
        },
        Ok(_) => Err(TokenError::Malformed),
    }
}

/// Verifies `token` against `secret` and returns its claims, judged at time `now`.
/// The signature is checked before any claim is trusted.
pub fn decode_token(token: &str, secret: &[u8], now: u64) -> (r: Result<TokenClaims, TokenError>)
    ensures
        claims_result_view(r) == decoded(token@, secret@, now as int),
{
    let opened = hs256_open(token, secret);
    check_claims(opened, now)
}

/// Whether a token can be issued at `now` for `validity` seconds: the expiry must lie strictly
/// after the issued-at and fit the clock's range.
pub open spec fn issuable(now: int, validity: int) -> bool {
    validity > 0 && now + validity <= u64::MAX
}

/// Issues a signed token for `sub`, issued at `now` and expiring `validity` seconds later.
/// Succeeds exactly when `issuable(now, validity)`.
pub fn issue_token(sub: &str, secret: &[u8], now: u64, validity: u64) -> (r: Option<String>)
    ensures
        !issuable(now as int, validity as int) ==> r is None,
        issuable(now as int, validity as int) ==> r is Some,
        r is Some ==> r->0@.len() > 0,
        r is Some ==> decoded(r->0@, secret@, now as int) == Ok::<_, TokenError>(
            ClaimsView { sub: sub@, iat: now as int, exp: now + validity },
        ),
        r is Some ==> hs256_claims(r->0@, secret@) == sealed(sub@, now, (now + validity) as u64),
        r is Some ==> forall|later: int| later > now + validity ==> #[trigger] decoded(r->0@, secret@, later) == Err::<ClaimsView, _>(TokenError::Expired),
{
    if validity == 0 || now > u64::MAX - validity {
        return None;
    }
    let exp = now + validity;
    match hs256_sign(sub, now, exp, secret) {
        Ok(t) => {
            proof {
                assert forall|later: int| later > now + validity implies #[trigger] decoded(t@, secret@, later) == Err::<ClaimsView, _>(TokenError::Expired) by {
                    lemma_sealed_lifetime(sub@, now, exp, later);
                }
            }
            Some(t)
        },
        Err(_) => None,
    }
}

/// A sealed claim set reads back as itself from its issued-at up to and including its expiry,
/// as expired at every later time, and as not yet valid before it was issued.
pub proof fn lemma_sealed_lifetime(sub: Seq<char>, iat: u64, exp: u64, at: int)
    ensures
        iat <= at <= exp ==> judged_claims(sealed(sub, iat, exp), at) == Ok::<_, TokenError>(ClaimsView { sub, iat: iat as int, exp: exp as int }),
        at > exp ==> judged_claims(sealed(sub, iat, exp), at) == Err::<ClaimsView, _>(TokenError::Expired),
        at < iat <= exp ==> judged_claims(sealed(sub, iat, exp), at) == Err::<ClaimsView, _>(TokenError::NotYetValid),
{
}

} // verus!
