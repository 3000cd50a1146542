//! Properties that relate several operations, stated over the views that the operations'
//! contracts use.
use crate::auth::{issued_token, token_refused, token_validation};
use crate::session::challenge_matches;
use crate::two_fa_code_store::TWO_FA_CODE_TTL_SECONDS;
use crate::user_store::{argon2_verifies, validation, UserStoreError};
use vstd::prelude::*;

verus! {

/// A credential filed for `email` with a hash that accepts `password` (as `add_user`
/// promises of the hash it stores) validates with that same password; with a password that
/// the hash refuses, validation reports invalid credentials.
pub proof fn lemma_add_then_validate(
    users: Map<Seq<char>, (Seq<char>, bool)>,
    email: Seq<char>,
    hash: Seq<char>,
    requires_2fa: bool,
    password: Seq<char>,
    other: Seq<char>,
)
    requires
        argon2_verifies(hash, password),
    ensures
        validation(users.insert(email, (hash, requires_2fa)), email, password) == Ok::<(), UserStoreError>(()),
        !argon2_verifies(hash, other) ==> validation(users.insert(email, (hash, requires_2fa)), email, other)
            == Err::<(), UserStoreError>(UserStoreError::InvalidCredentials),
{
}

/// Revoking a token twice leaves the revocation set as revoking it once does, and the
/// token is refused after either call.
pub proof fn lemma_revocation_idempotent(banned: Set<Seq<char>>, token: Seq<char>)
    ensures
        banned.insert(token).insert(token) == banned.insert(token),
        token_refused(banned.insert(token), token),
        token_refused(banned.insert(token).insert(token), token),
{
    assert(banned.insert(token).insert(token) =~= banned.insert(token));
}

/// A challenge is answered once: the store that a successful verification leaves (the
/// challenge of `email` removed) matches no answer for `email` at any time, the same one
/// included.
pub proof fn lemma_challenge_single_use(
    codes: Map<Seq<char>, (Seq<char>, Seq<char>, int)>,
    email: Seq<char>,
    login_attempt_id: Seq<char>,
    code: Seq<char>,
    now: int,
)
    ensures
        !challenge_matches(codes.remove(email), email, login_attempt_id, code, now),
{
}

/// A second login with a challenge for the same identity supersedes the first: the first
/// login-attempt id no longer matches, whatever code comes with it and however soon, as long
/// as the two identifiers differ.
pub proof fn lemma_challenge_supersession(
    codes: Map<Seq<char>, (Seq<char>, Seq<char>, int)>,
    email: Seq<char>,
    first_id: Seq<char>,
    first_code: Seq<char>,
    first_time: int,
    second_id: Seq<char>,
    second_code: Seq<char>,
    second_time: int,
    code: Seq<char>,
    now: int,
)
    requires
        first_id != second_id,
    ensures
        !challenge_matches(
            codes.insert(email, (first_id, first_code, first_time)).insert(email, (second_id, second_code, second_time)),
            email,
            first_id,
            code,
            now,
        ),
{
}

/// A challenge is answerable for a bounded window only: from the end of the window on, it
/// matches no answer, even one that was right.
pub proof fn lemma_challenge_expires(
    codes: Map<Seq<char>, (Seq<char>, Seq<char>, int)>,
    email: Seq<char>,
    login_attempt_id: Seq<char>,
    code: Seq<char>,
    now: int,
)
    requires
        codes.contains_key(email),
        now >= codes[email].2 + TWO_FA_CODE_TTL_SECONDS,
    ensures
        !challenge_matches(codes, email, login_attempt_id, code, now),
{
}

/// After a logout has revoked `token`, the token is refused, and checking it yields nothing
/// at any time, however it was judged before.
pub proof fn lemma_logout_final(banned: Set<Seq<char>>, token: Seq<char>, secret: Seq<u8>, now: int)
    ensures
        token_refused(banned.insert(token), token),
        token_validation(banned.insert(token), token, secret, now) is None,
{
}

/// A token issued for `sub` with expiry `exp` validates, until it expires and unless it is
/// revoked, with exactly those claims.
pub proof fn lemma_issued_token_validates(
    banned: Set<Seq<char>>,
    token: Seq<char>,
    sub: Seq<char>,
    exp: int,
    secret: Seq<u8>,
    now: int,
)
    requires
        issued_token(token, sub, exp, secret),
        !banned.contains(token),
        now < exp <= usize::MAX,
    ensures
        token_validation(banned, token, secret, now) == Some((sub, exp)),
{
}

} // verus!
