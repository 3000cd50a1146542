use crate::banned_token_store::{BannedTokenStoreError, HashsetBannedTokenStore};
use crate::clock::now_unix_seconds;
use crate::email::Email;
use jsonwebtoken::{DecodingKey, EncodingKey, Header, Validation};
use vstd::prelude::*;

verus! {

#[verifier::external_type_specification]
#[verifier::external_body]
pub struct ExJwtError(jsonwebtoken::errors::Error);

/// How long, in seconds, a session token stays valid after it is issued.
pub const TOKEN_TTL_SECONDS: i64 = 600;

/// The name of the cookie that carries the session token.
pub const JWT_COOKIE_NAME: &'static str = "jwt";

/// The token that jsonwebtoken signs, with HS256 under `secret`, for the claims
/// `sub` and `exp`.
pub uninterp spec fn jwt_hs256(sub: Seq<char>, exp: int, secret: Seq<u8>) -> Seq<char>;

/// What jsonwebtoken reads from `token` under `secret`, without looking at the clock: `None`
/// unless the token is well formed, signed with HS256 under `secret`, and has an integer
/// `exp` claim; else its `sub` claim where it is a string and its `exp` claim.
pub uninterp spec fn jwt_claims(token: Seq<char>, secret: Seq<u8>) -> Option<(Option<Seq<char>>, Option<int>)>;

/// The number of dots in `s`: a token of header, payload and signature has two.
pub open spec fn dot_count(s: Seq<char>) -> nat {
    s.filter(|c: char| c == '.').len()
}

/// Relies on jsonwebtoken's `encode` with the default header (HS256) and
/// `EncodingKey::from_secret`. The key and the header are both of the HMAC family, HS256
/// signing cannot fail, and a serde_json map of a string and an integer always serialises,
/// so it succeeds. The token is the base64url header, payload and signature joined by two
/// dots (base64url has no dot); it signs the map (whose keys come out sorted) with
/// HMAC-SHA256 under `secret`, so it depends on the three arguments alone, and `decode` with
/// the same secret gives back the two claims.
#[verifier::external_body]
fn encode_claims(sub: &str, exp: usize, secret: &[u8]) -> (r: Result<String, jsonwebtoken::errors::Error>)
    ensures
        r is Ok,
        r matches Ok(t) ==> t@ == jwt_hs256(sub@, exp as int, secret@) && dot_count(t@) == 2
            && jwt_claims(t@, secret@) == Some((Some(sub@), Some(exp as int))),
{
    let mut claims = serde_json::Map::new();
    claims.insert("sub".to_owned(), serde_json::Value::from(sub));
    claims.insert("exp".to_owned(), serde_json::Value::from(exp));
    jsonwebtoken::encode(&Header::default(), &claims, &EncodingKey::from_secret(secret))
}

/// The view of what `decode_claims` hands back.
pub open spec fn decoded_view(sub: Option<String>, exp: Option<u64>) -> (Option<Seq<char>>, Option<int>) {
    (
        match sub {
            Some(s) => Some(s@),
            None => None,
        },
        match exp {
            Some(e) => Some(e as int),
            None => None,
        },
    )
}

/// Relies on jsonwebtoken's `decode` with `DecodingKey::from_secret` and the default
/// `Validation` (HS256 signature, an `exp` claim required) with `validate_exp` switched off,
/// so that the clock plays no part and the result depends on the token and the secret alone:
/// on success, the `sub` claim where it is a string and the `exp` claim where it is an
/// unsigned integer.
#[verifier::external_body]
fn decode_claims(token: &str, secret: &[u8]) -> (r: Result<(Option<String>, Option<u64>), jsonwebtoken::errors::Error>)
    ensures
        match r {
            Ok((sub, exp)) => jwt_claims(token@, secret@) == Some(decoded_view(sub, exp)),
            Err(_) => jwt_claims(token@, secret@) is None,
        },
{
    let mut validation = Validation::default();
    validation.validate_exp = false;
    let data = jsonwebtoken::decode::<serde_json::Map<String, serde_json::Value>>(
        token,
        &DecodingKey::from_secret(secret),
        &validation,
    )?;
    let sub = data.claims.get("sub").and_then(|v| v.as_str()).map(|s| s.to_owned());
    let exp = data.claims.get("exp").and_then(|v| v.as_u64());
    Ok((sub, exp))
}

#[derive(Debug)]
pub enum GenerateTokenError {
    TokenError(jsonwebtoken::errors::Error),
    UnexpectedError,
}

/// What a session token asserts: its subject and its expiry, in seconds since the epoch.
#[derive(Debug, Clone)]
pub struct Claims {
    pub sub: String,
    pub exp: usize,
}

/// The expiry of a token issued at `now`, where it can be written as a timestamp.
pub open spec fn expiry_of(now: int) -> Option<int> {
    let exp = now + TOKEN_TTL_SECONDS;
    if 0 <= exp <= i64::MAX && exp <= usize::MAX {
        Some(exp)
    } else {
        None
    }
}

pub fn token_expiry(now: i64) -> (r: Option<usize>)
    ensures
        match expiry_of(now as int) {
            Some(e) => r == Some(e as usize),
            None => r is None,
        },
{
    match now.checked_add(TOKEN_TTL_SECONDS) {
        None => None,
        Some(exp) => {
            if exp < 0 {
                None
            } else if (exp as u64) <= (usize::MAX as u64) {
                Some(exp as u64 as usize)
            } else {
                None
            }
        },
    }
}

/// `token` is the session token of `sub` expiring at `exp`, signed under `secret`: three
/// dot-separated parts, whose claims read back as `sub` and `exp`.
pub open spec fn issued_token(token: Seq<char>, sub: Seq<char>, exp: int, secret: Seq<u8>) -> bool {
    &&& token == jwt_hs256(sub, exp, secret)
    &&& dot_count(token) == 2
    &&& jwt_claims(token, secret) == Some((Some(sub), Some(exp)))
}

/// Creates the session token of `email` at time `now`; it fails only where the expiry cannot
/// be written.
pub fn generate_auth_token_at(email: &Email, now: i64, secret: &[u8]) -> (r: Result<String, GenerateTokenError>)
    ensures
        match expiry_of(now as int) {
            None => r matches Err(GenerateTokenError::UnexpectedError),
            Some(exp) => r matches Ok(t) && issued_token(t@, email@, exp, secret@),
        },
{
    match token_expiry(now) {
        None => Err(GenerateTokenError::UnexpectedError),
        Some(exp) => match encode_claims(email.as_str(), exp, secret) {
            Ok(t) => Ok(t),
            Err(e) => Err(GenerateTokenError::TokenError(e)),
        },
    }
}

/// Creates the session token of `email`, valid for the token lifetime from now.
pub fn generate_auth_token(email: &Email, secret: &[u8]) -> (r: Result<String, GenerateTokenError>)
    ensures
        r matches Ok(t) ==> exists|exp: int| issued_token(t@, email@, exp, secret@),
        r matches Err(e) ==> e is UnexpectedError,
{
    generate_auth_token_at(email, now_unix_seconds(), secret)
}

/// The `SameSite` attribute of a cookie.
#[derive(Debug, Clone, Copy, PartialEq, Eq, Structural)]
pub enum SameSite {
    Strict,
    Lax,
}

/// A cookie as the service sets it.
pub struct AuthCookie {
    pub name: String,
    pub value: String,
    pub path: String,
    pub http_only: bool,
    pub same_site: SameSite,
}

/// `c` carries `token` as the session cookie: named `jwt`, for every path, out of reach of
/// scripts, and sent with same-site requests and top-level navigations.
pub open spec fn is_session_cookie(c: AuthCookie, token: Seq<char>) -> bool {
    &&& c.name@ == JWT_COOKIE_NAME@
    &&& c.value@ == token
    &&& c.path@ == "/"@
    &&& c.http_only
    &&& c.same_site == SameSite::Lax
}

/// `c` is the session cookie of `sub`, whose token expires at `exp`.
pub open spec fn session_cookie_for(c: AuthCookie, sub: Seq<char>, exp: int, secret: Seq<u8>) -> bool {
    is_session_cookie(c, jwt_hs256(sub, exp, secret)) && issued_token(c.value@, sub, exp, secret)
}

pub fn create_auth_cookie(token: String) -> (c: AuthCookie)
    ensures
        is_session_cookie(c, token@),
{
    AuthCookie {
        name: String::from_str(JWT_COOKIE_NAME),
        value: token,
        path: String::from_str("/"),
        http_only: true,
        same_site: SameSite::Lax,
    }
}

/// Creates a session cookie for `email` at time `now`; it fails only where the expiry cannot
/// be written.
pub fn generate_auth_cookie_at(email: &Email, now: i64, secret: &[u8]) -> (r: Result<AuthCookie, GenerateTokenError>)
    ensures
        match expiry_of(now as int) {
            None => r matches Err(GenerateTokenError::UnexpectedError),
            Some(exp) => r matches Ok(c) && session_cookie_for(c, email@, exp, secret@),
        },
{
    match generate_auth_token_at(email, now, secret) {
        Ok(t) => Ok(create_auth_cookie(t)),
        Err(e) => Err(e),
    }
}

/// Creates a session cookie for `email`, valid for the token lifetime from now.
pub fn generate_auth_cookie(email: &Email, secret: &[u8]) -> (r: Result<AuthCookie, GenerateTokenError>)
    ensures
        r matches Ok(c) ==> exists|exp: int| session_cookie_for(c, email@, exp, secret@),
        r matches Err(e) ==> e is UnexpectedError,
{
    generate_auth_cookie_at(email, now_unix_seconds(), secret)
}

/// The claims that a decoded token yields: both must be present, and the expiry must fit
/// in `usize`.
pub fn claims_from_parts(sub: Option<String>, exp: Option<u64>) -> (r: Option<Claims>)
    ensures
        r is Some <==> (sub is Some && exp is Some && exp.unwrap() <= usize::MAX),
        r matches Some(c) ==> c.sub@ == sub.unwrap()@ && c.exp as int == exp.unwrap() as int,
{
    match (sub, exp) {
        (Some(s), Some(e)) => {
            if e <= usize::MAX as u64 {
                Some(Claims { sub: s, exp: e as usize })
            } else {
                None
            }
        },
        _ => None,
    }
}

/// A revoked token never validates.
pub open spec fn token_refused(banned: Set<Seq<char>>, token: Seq<char>) -> bool {
    banned.contains(token)
}

/// What checking `token` at time `now` yields: its subject and expiry where it is not revoked,
/// is signed under `secret`, carries both claims, and has not expired (`now < exp`).
pub open spec fn token_validation(banned: Set<Seq<char>>, token: Seq<char>, secret: Seq<u8>, now: int) -> Option<(Seq<char>, int)> {
    if token_refused(banned, token) {
        None
    } else {
        match jwt_claims(token, secret) {
            Some((Some(sub), Some(exp))) => {
                if now < exp && exp <= usize::MAX {
                    Some((sub, exp))
                } else {
                    None
                }
            },
            _ => None,
        }
    }
}

/// Checks a session token at time `now`: it must not be revoked, its signature must hold and
/// it must not have expired. Every failure is the same `InvalidToken`.
pub fn validate_token_at(token: &String, banned_token_store: &HashsetBannedTokenStore, secret: &[u8], now: i64) -> (r: Result<Claims, BannedTokenStoreError>)
    requires
        banned_token_store.wf(),
    ensures
        match token_validation(banned_token_store@, token@, secret@, now as int) {
            Some((sub, exp)) => r matches Ok(c) && c.sub@ == sub && c.exp as int == exp,
            None => r matches Err(BannedTokenStoreError::InvalidToken),
        },
{
    if banned_token_store.validate_token(token).is_err() {
        return Err(BannedTokenStoreError::InvalidToken);
    }
    match decode_claims(token.as_str(), secret) {
        Err(_) => Err(BannedTokenStoreError::InvalidToken),
        Ok((sub, exp)) => match claims_from_parts(sub, exp) {
            Some(c) => {
                if (now as i128) < (c.exp as i128) {
                    Ok(c)
                } else {
                    Err(BannedTokenStoreError::InvalidToken)
                }
            },
            None => Err(BannedTokenStoreError::InvalidToken),
        },
    }
}

/// Checks a session token now.
pub fn validate_token(token: &String, banned_token_store: &HashsetBannedTokenStore, secret: &[u8]) -> (r: Result<Claims, BannedTokenStoreError>)
    requires
        banned_token_store.wf(),
    ensures
        token_refused(banned_token_store@, token@) ==> r is Err,
        jwt_claims(token@, secret@) is None ==> r is Err,
        r matches Ok(c) ==> exists|now: int| token_validation(banned_token_store@, token@, secret@, now) == Some((c.sub@, c.exp as int)),
        r matches Err(e) ==> e == BannedTokenStoreError::InvalidToken,
{
    validate_token_at(token, banned_token_store, secret, now_unix_seconds())
}

} // verus!
