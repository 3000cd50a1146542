use crate::api::{
    AuthAPIError, DeleteUserResponse, LoginRequest, LoginResponse, SignupRequest, SignupResponse,
    TwoFactorAuthResponse, Verify2FARequest, VerifyTokenRequest,
};
use crate::auth::{
    expiry_of, generate_auth_cookie, generate_auth_cookie_at, jwt_claims, session_cookie_for,
    token_refused, token_validation, validate_token_at, AuthCookie, Claims,
};
use crate::banned_token_store::{BannedTokenStoreError, HashsetBannedTokenStore};
use crate::clock::now_unix_seconds;
use crate::email::{email_syntax_ok, Email};
use crate::password::{password_accepted, Password};
use crate::two_fa::{six_digits, LoginAttemptId, TwoFACode, CODE_HIGH, CODE_LOW};
use crate::two_fa_code_store::{challenge_fresh, HashmapTwoFACodeStore};
use crate::user::User;
use crate::user_store::{argon2_verifies, hashable, validation, Credential, HashmapUserStore};
use vstd::prelude::*;

verus! {

/// The e-mail address and the password are both well formed.
pub open spec fn input_ok(email: Seq<char>, password: Seq<char>) -> bool {
    email_syntax_ok(email) && password_accepted(password)
}

/// At time `now`, `email` has a challenge that has not expired, and its login-attempt id
/// and code are exactly these.
pub open spec fn challenge_matches(
    codes: Map<Seq<char>, (Seq<char>, Seq<char>, int)>,
    email: Seq<char>,
    login_attempt_id: Seq<char>,
    code: Seq<char>,
    now: int,
) -> bool {
    &&& codes.contains_key(email)
    &&& codes[email].0 == login_attempt_id
    &&& codes[email].1 == code
    &&& challenge_fresh(codes[email].2, now)
}

/// `after` is `before` with a challenge for `email`, of this login-attempt id and code,
/// filed at some time.
pub open spec fn challenge_filed(
    before: Map<Seq<char>, (Seq<char>, Seq<char>, int)>,
    after: Map<Seq<char>, (Seq<char>, Seq<char>, int)>,
    email: Seq<char>,
    login_attempt_id: Seq<char>,
    code: Seq<char>,
) -> bool {
    exists|t: int| after == before.insert(email, (login_attempt_id, code, t))
}

/// Where a login stands once the credentials have been accepted.
pub enum LoginOutcome {
    /// The identity needs no second factor: the session cookie to set.
    Issued(AuthCookie),
    /// A challenge was filed for `email`: `code` goes to the user out of band, and only
    /// `login_attempt_id` goes back in the response.
    ChallengeIssued { email: Email, login_attempt_id: LoginAttemptId, code: TwoFACode },
}

impl LoginOutcome {
    /// The HTTP status of a successful login: 200 with a session, 206 with a challenge.
    pub fn status_code(&self) -> (r: u16)
        ensures
            r == (if self is Issued { 200u16 } else { 206u16 }),
    {
        match self {
            LoginOutcome::Issued(_) => 200,
            LoginOutcome::ChallengeIssued { .. } => 206,
        }
    }
}

/// Checks the login input and the credentials; every failure after the syntax check is the
/// same `IncorrectCredentials`, so that an unknown address and a wrong password look alike.
pub fn check_credentials(users: &HashmapUserStore, request: LoginRequest) -> (r: Result<Credential, AuthAPIError>)
    requires
        users.wf(),
    ensures
        !input_ok(request.email@, request.password@) ==> r == Err::<Credential, AuthAPIError>(AuthAPIError::InvalidCredentials),
        input_ok(request.email@, request.password@) ==> match r {
            Ok(c) => validation(users@, request.email@, request.password@) is Ok
                && c.email@ == request.email@ && (c.password_hash@, c.requires_2fa) == users@[request.email@],
            Err(e) => validation(users@, request.email@, request.password@) is Err
                && e == AuthAPIError::IncorrectCredentials,
        },
{
    let password = match Password::parse(request.password) {
        Ok(p) => p,
        Err(_) => return Err(AuthAPIError::InvalidCredentials),
    };
    let email = match Email::parse(request.email) {
        Ok(e) => e,
        Err(_) => return Err(AuthAPIError::InvalidCredentials),
    };
    if users.validate_user(&email, &password).is_err() {
        return Err(AuthAPIError::IncorrectCredentials);
    }
    match users.get_user(&email) {
        Ok(c) => Ok(c),
        Err(_) => Err(AuthAPIError::IncorrectCredentials),
    }
}

/// Logs in at time `now`. Where the identity asks for a second factor, the challenge
/// (`login_attempt_id`, `code`) is filed, superseding any pending one; else a session
/// cookie is issued.
pub fn login_at(
    users: &HashmapUserStore,
    codes: &mut HashmapTwoFACodeStore,
    request: LoginRequest,
    secret: &[u8],
    now: i64,
    login_attempt_id: LoginAttemptId,
    code: TwoFACode,
) -> (r: Result<LoginOutcome, AuthAPIError>)
    requires
        users.wf(),
        old(codes).wf(),
    ensures
        final(codes).wf(),
        !input_ok(request.email@, request.password@) ==> (r matches Err(AuthAPIError::InvalidCredentials)
            && final(codes)@ == old(codes)@),
        input_ok(request.email@, request.password@) && validation(users@, request.email@, request.password@) is Err
            ==> (r matches Err(AuthAPIError::IncorrectCredentials) && final(codes)@ == old(codes)@),
        input_ok(request.email@, request.password@) && validation(users@, request.email@, request.password@) is Ok
            && users@[request.email@].1 ==> final(codes)@ == old(codes)@.insert(request.email@, (login_attempt_id@, code@, now as int))
            && (r matches Ok(LoginOutcome::ChallengeIssued { email: e, login_attempt_id: a, code: c })
            && e@ == request.email@ && a@ == login_attempt_id@ && c@ == code@),
        input_ok(request.email@, request.password@) && validation(users@, request.email@, request.password@) is Ok
            && !users@[request.email@].1 ==> final(codes)@ == old(codes)@ && match expiry_of(now as int) {
                None => r matches Err(AuthAPIError::UnexpectedError),
                Some(exp) => r matches Ok(LoginOutcome::Issued(c)) && session_cookie_for(c, request.email@, exp, secret@),
            },
{
    let credential = match check_credentials(users, request) {
        Ok(c) => c,
        Err(e) => return Err(e),
    };
    if credential.requires_2fa {
        let _ = codes.add_code_at(credential.email.duplicate(), login_attempt_id.duplicate(), code.duplicate(), now);
        Ok(LoginOutcome::ChallengeIssued { email: credential.email, login_attempt_id, code })
    } else {
        match generate_auth_cookie_at(&credential.email, now, secret) {
            Ok(c) => Ok(LoginOutcome::Issued(c)),
            Err(_) => Err(AuthAPIError::UnexpectedError),
        }
    }
}

/// Logs in now, drawing a fresh login-attempt id and code where a second factor is needed.
pub fn login(users: &HashmapUserStore, codes: &mut HashmapTwoFACodeStore, request: LoginRequest, secret: &[u8]) -> (r: Result<LoginOutcome, AuthAPIError>)
    requires
        users.wf(),
        old(codes).wf(),
    ensures
        final(codes).wf(),
        !input_ok(request.email@, request.password@) ==> (r matches Err(AuthAPIError::InvalidCredentials)
            && final(codes)@ == old(codes)@),
        input_ok(request.email@, request.password@) && validation(users@, request.email@, request.password@) is Err
            ==> (r matches Err(AuthAPIError::IncorrectCredentials) && final(codes)@ == old(codes)@),
        input_ok(request.email@, request.password@) && validation(users@, request.email@, request.password@) is Ok
            && users@[request.email@].1 ==> (r matches Ok(LoginOutcome::ChallengeIssued { email: e, login_attempt_id: a, code: c })
            && e@ == request.email@ && challenge_filed(old(codes)@, final(codes)@, request.email@, a@, c@)
            && a@.len() == 36 && exists|n: int| CODE_LOW <= n <= CODE_HIGH && c@ == six_digits(n)),
        input_ok(request.email@, request.password@) && validation(users@, request.email@, request.password@) is Ok
            && !users@[request.email@].1 ==> final(codes)@ == old(codes)@ && match r {
                Ok(o) => o matches LoginOutcome::Issued(c)
                    && exists|exp: int| session_cookie_for(c, request.email@, exp, secret@),
                Err(e) => e == AuthAPIError::UnexpectedError,
            },
{
    let ghost req_email = request.email@;
    let credential = match check_credentials(users, request) {
        Ok(c) => c,
        Err(e) => return Err(e),
    };
    if credential.requires_2fa {
        let login_attempt_id = LoginAttemptId::default();
        let code = TwoFACode::default();
        let ghost before = codes@;
        let _ = codes.add_code(credential.email.duplicate(), login_attempt_id.duplicate(), code.duplicate());
        proof {
            let t = choose|t: int| codes@ == before.insert(credential.email@, (login_attempt_id@, code@, t));
            assert(codes@ == before.insert(req_email, (login_attempt_id@, code@, t)));
            assert(challenge_filed(before, codes@, req_email, login_attempt_id@, code@));
        }
        Ok(LoginOutcome::ChallengeIssued { email: credential.email, login_attempt_id, code })
    } else {
        match generate_auth_cookie(&credential.email, secret) {
            Ok(c) => Ok(LoginOutcome::Issued(c)),
            Err(_) => Err(AuthAPIError::UnexpectedError),
        }
    }
}

/// The response to a login that awaits its second factor.
pub fn two_factor_response(login_attempt_id: &LoginAttemptId) -> (r: LoginResponse)
    ensures
        r matches LoginResponse::TwoFactorAuth(t) && t.message@ == "2FA required"@
            && t.login_attempt_id@ == login_attempt_id@,
{
    LoginResponse::TwoFactorAuth(
        TwoFactorAuthResponse {
            message: String::from_str("2FA required"),
            login_attempt_id: String::from_str(login_attempt_id.as_str()),
        },
    )
}

/// The body of the e-mail that delivers a second-factor code.
pub fn two_fa_email_content(code: &TwoFACode) -> (r: String)
    ensures
        r@ == "The 2FA code requested is: "@ + code@,
{
    let mut s = String::from_str("The 2FA code requested is: ");
    s.append(code.expose_secret());
    s
}

/// Answers a second-factor challenge at time `now`. Only an exact match of both the
/// login-attempt id and the code succeeds; it issues a session cookie and consumes the
/// challenge.
pub fn verify_2fa_at(codes: &mut HashmapTwoFACodeStore, request: Verify2FARequest, secret: &[u8], now: i64) -> (r: Result<AuthCookie, AuthAPIError>)
    requires
        old(codes).wf(),
    ensures
        final(codes).wf(),
        !email_syntax_ok(request.email@) ==> r matches Err(AuthAPIError::InvalidCredentials),
        email_syntax_ok(request.email@) && !challenge_matches(old(codes)@, request.email@, request.login_attempt_id@, request.two_fa_code@, now as int)
            ==> r matches Err(AuthAPIError::IncorrectCredentials),
        email_syntax_ok(request.email@) && challenge_matches(old(codes)@, request.email@, request.login_attempt_id@, request.two_fa_code@, now as int)
            ==> match expiry_of(now as int) {
                None => r matches Err(AuthAPIError::UnexpectedError),
                Some(exp) => r matches Ok(c) && session_cookie_for(c, request.email@, exp, secret@),
            },
        r is Ok ==> final(codes)@ == old(codes)@.remove(request.email@),
        r is Err ==> final(codes)@ == old(codes)@,
{
    let email = match Email::parse(request.email) {
        Ok(e) => e,
        Err(_) => return Err(AuthAPIError::InvalidCredentials),
    };
    let (stored_id, stored_code) = match codes.get_code_at(&email, now) {
        Ok(pair) => pair,
        Err(_) => return Err(AuthAPIError::IncorrectCredentials),
    };
    if !stored_id.matches_text(&request.login_attempt_id) {
        return Err(AuthAPIError::IncorrectCredentials);
    }
    if !stored_code.matches_text(&request.two_fa_code) {
        return Err(AuthAPIError::IncorrectCredentials);
    }
    let cookie = match generate_auth_cookie_at(&email, now, secret) {
        Ok(c) => c,
        Err(_) => return Err(AuthAPIError::UnexpectedError),
    };
    let _ = codes.remove_code(&email);
    Ok(cookie)
}

/// Answers a second-factor challenge now.
pub fn verify_2fa(codes: &mut HashmapTwoFACodeStore, request: Verify2FARequest, secret: &[u8]) -> (r: Result<AuthCookie, AuthAPIError>)
    requires
        old(codes).wf(),
    ensures
        final(codes).wf(),
        !email_syntax_ok(request.email@) ==> r matches Err(AuthAPIError::InvalidCredentials),
        email_syntax_ok(request.email@) && !old(codes)@.contains_key(request.email@) ==> r matches Err(AuthAPIError::IncorrectCredentials),
        email_syntax_ok(request.email@) && old(codes)@.contains_key(request.email@)
            && (old(codes)@[request.email@].0 != request.login_attempt_id@ || old(codes)@[request.email@].1 != request.two_fa_code@)
            ==> r matches Err(AuthAPIError::IncorrectCredentials),
        r is Ok ==> old(codes)@.contains_key(request.email@) && old(codes)@[request.email@].0 == request.login_attempt_id@
            && old(codes)@[request.email@].1 == request.two_fa_code@,
        r matches Ok(c) ==> exists|exp: int| session_cookie_for(c, request.email@, exp, secret@),
        r matches Err(e) ==> e == AuthAPIError::InvalidCredentials || e == AuthAPIError::IncorrectCredentials
            || e == AuthAPIError::UnexpectedError,
        r is Ok ==> final(codes)@ == old(codes)@.remove(request.email@),
        r is Err ==> final(codes)@ == old(codes)@,
{
    verify_2fa_at(codes, request, secret, now_unix_seconds())
}

/// Ends a session once its token has been checked: a valid token is revoked, any other
/// failure of the check is `InvalidToken`.
pub fn logout_with(banned: &mut HashsetBannedTokenStore, token: String, check: Result<Claims, BannedTokenStoreError>) -> (r: Result<(), AuthAPIError>)
    requires
        old(banned).wf(),
    ensures
        final(banned).wf(),
        r is Ok <==> check is Ok,
        r is Ok ==> final(banned)@ == old(banned)@.insert(token@),
        r matches Err(e) ==> e == AuthAPIError::InvalidToken && final(banned)@ == old(banned)@,
{
    match check {
        Err(_) => Err(AuthAPIError::InvalidToken),
        Ok(_) => match banned.add_token(token) {
            Ok(()) => Ok(()),
            Err(_) => Err(AuthAPIError::UnexpectedError),
        },
    }
}

/// Ends, at time `now`, the session that `token` (the value of the session cookie, if any)
/// carries. A revoked token never passes the check, so a second logout with it fails.
pub fn logout_at(banned: &mut HashsetBannedTokenStore, token: Option<String>, secret: &[u8], now: i64) -> (r: Result<(), AuthAPIError>)
    requires
        old(banned).wf(),
    ensures
        final(banned).wf(),
        r matches Err(AuthAPIError::MissingToken) <==> token is None,
        token is Some && token_validation(old(banned)@, token.unwrap()@, secret@, now as int) is Some
            ==> r is Ok && final(banned)@ == old(banned)@.insert(token.unwrap()@),
        token matches Some(t) && token_validation(old(banned)@, t@, secret@, now as int) is None
            ==> r matches Err(AuthAPIError::InvalidToken),
        r is Err ==> final(banned)@ == old(banned)@,
{
    match token {
        None => Err(AuthAPIError::MissingToken),
        Some(t) => {
            let check = validate_token_at(&t, banned, secret, now);
            logout_with(banned, t, check)
        },
    }
}

/// Ends the session that `token` carries, checking it against the clock now.
pub fn logout(banned: &mut HashsetBannedTokenStore, token: Option<String>, secret: &[u8]) -> (r: Result<(), AuthAPIError>)
    requires
        old(banned).wf(),
    ensures
        final(banned).wf(),
        r matches Err(AuthAPIError::MissingToken) <==> token is None,
        token matches Some(t) && token_refused(old(banned)@, t@) ==> r matches Err(AuthAPIError::InvalidToken),
        token matches Some(t) && jwt_claims(t@, secret@) is None ==> r matches Err(AuthAPIError::InvalidToken),
        r is Ok ==> token is Some && final(banned)@ == old(banned)@.insert(token.unwrap()@)
            && exists|now: int| token_validation(old(banned)@, token.unwrap()@, secret@, now) is Some,
        r matches Err(e) ==> (e == AuthAPIError::MissingToken || e == AuthAPIError::InvalidToken)
            && final(banned)@ == old(banned)@,
{
    logout_at(banned, token, secret, now_unix_seconds())
}

/// Checks, at time `now`, a bearer token for another service; it changes nothing.
pub fn verify_token_at(banned: &HashsetBannedTokenStore, request: &VerifyTokenRequest, secret: &[u8], now: i64) -> (r: Result<Claims, AuthAPIError>)
    requires
        banned.wf(),
    ensures
        match token_validation(banned@, request.token@, secret@, now as int) {
            Some((sub, exp)) => r matches Ok(c) && c.sub@ == sub && c.exp as int == exp,
            None => r matches Err(AuthAPIError::InvalidToken),
        },
{
    match validate_token_at(&request.token, banned, secret, now) {
        Ok(c) => Ok(c),
        Err(_) => Err(AuthAPIError::InvalidToken),
    }
}

/// Checks a bearer token for another service now; it changes nothing.
pub fn verify_token(banned: &HashsetBannedTokenStore, request: &VerifyTokenRequest, secret: &[u8]) -> (r: Result<Claims, AuthAPIError>)
    requires
        banned.wf(),
    ensures
        token_refused(banned@, request.token@) ==> r is Err,
        jwt_claims(request.token@, secret@) is None ==> r is Err,
        r matches Ok(c) ==> exists|now: int| token_validation(banned@, request.token@, secret@, now) == Some((c.sub@, c.exp as int)),
        r matches Err(e) ==> e == AuthAPIError::InvalidToken,
{
    verify_token_at(banned, request, secret, now_unix_seconds())
}

/// Registers a new identity. `recaptcha_valid` is the verdict of the captcha service on
/// `request.recaptcha`.
pub fn signup(users: &mut HashmapUserStore, request: SignupRequest, recaptcha_valid: bool) -> (r: Result<SignupResponse, AuthAPIError>)
    requires
        old(users).wf(),
    ensures
        final(users).wf(),
        !input_ok(request.email@, request.password@) ==> r matches Err(AuthAPIError::InvalidCredentials),
        input_ok(request.email@, request.password@) && !recaptcha_valid ==> r matches Err(AuthAPIError::InvalidRecaptcha),
        input_ok(request.email@, request.password@) && recaptcha_valid && old(users)@.contains_key(request.email@)
            ==> r matches Err(AuthAPIError::UserAlreadyExists),
        input_ok(request.email@, request.password@) && recaptcha_valid && !old(users)@.contains_key(request.email@)
            && hashable(request.password@) ==> r is Ok,
        input_ok(request.email@, request.password@) && recaptcha_valid && !old(users)@.contains_key(request.email@)
            ==> match r {
                Ok(resp) => resp.message@ == "User created successfully!"@
                    && final(users)@.contains_key(request.email@)
                    && final(users)@ == old(users)@.insert(request.email@, final(users)@[request.email@])
                    && final(users)@[request.email@].1 == request.requires_2fa
                    && argon2_verifies(final(users)@[request.email@].0, request.password@),
                Err(e) => e == AuthAPIError::UnexpectedError,
            },
        r is Err ==> final(users)@ == old(users)@,
{
    let email = match Email::parse(request.email) {
        Ok(e) => e,
        Err(_) => return Err(AuthAPIError::InvalidCredentials),
    };
    let password = match Password::parse(request.password) {
        Ok(p) => p,
        Err(_) => return Err(AuthAPIError::InvalidCredentials),
    };
    if !recaptcha_valid {
        return Err(AuthAPIError::InvalidRecaptcha);
    }
    if users.get_user(&email).is_ok() {
        return Err(AuthAPIError::UserAlreadyExists);
    }
    let user = User::new(email, password, request.requires_2fa);
    match users.add_user(user) {
        Ok(()) => Ok(SignupResponse { message: String::from_str("User created successfully!") }),
        Err(_) => Err(AuthAPIError::UnexpectedError),
    }
}

/// Deletes the identity `email` and its credential.
pub fn delete(users: &mut HashmapUserStore, email: String) -> (r: Result<DeleteUserResponse, AuthAPIError>)
    requires
        old(users).wf(),
    ensures
        final(users).wf(),
        !email_syntax_ok(email@) ==> r matches Err(AuthAPIError::InvalidCredentials),
        email_syntax_ok(email@) && !old(users)@.contains_key(email@) ==> r matches Err(AuthAPIError::UserNotFound),
        email_syntax_ok(email@) && old(users)@.contains_key(email@) ==> (r matches Ok(resp)
            && resp.message@ == "User deleted successfully!"@),
        r is Ok ==> final(users)@ == old(users)@.remove(email@),
        r is Err ==> final(users)@ == old(users)@,
{
    let email = match Email::parse(email) {
        Ok(e) => e,
        Err(_) => return Err(AuthAPIError::InvalidCredentials),
    };
    match users.delete_user(&email) {
        Ok(()) => Ok(DeleteUserResponse { message: String::from_str("User deleted successfully!") }),
        Err(_) => Err(AuthAPIError::UserNotFound),
    }
}

} // verus!
