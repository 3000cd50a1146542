use vstd::prelude::*;

verus! {

/// The failures that cross the service boundary. Store-level errors are mapped onto these.
#[derive(Debug, Clone, Copy, PartialEq, Eq, Structural)]
pub enum AuthAPIError {
    UserAlreadyExists,
    InvalidCredentials,
    UnexpectedError,
    InvalidRecaptcha,
    IncorrectCredentials,
    MissingToken,
    InvalidToken,
    UserNotFound,
}

pub open spec fn status_of(e: AuthAPIError) -> u16 {
    match e {
        AuthAPIError::UserAlreadyExists => 409,
        AuthAPIError::InvalidCredentials => 400,
        AuthAPIError::UnexpectedError => 500,
        AuthAPIError::InvalidRecaptcha => 400,
        AuthAPIError::IncorrectCredentials => 401,
        AuthAPIError::MissingToken => 400,
        AuthAPIError::InvalidToken => 401,
        AuthAPIError::UserNotFound => 404,
    }
}

pub open spec fn message_of(e: AuthAPIError) -> Seq<char> {
    match e {
        AuthAPIError::UserAlreadyExists => "User already exists"@,
        AuthAPIError::InvalidCredentials => "Invalid credentials"@,
        AuthAPIError::UnexpectedError => "Unexpected error"@,
        AuthAPIError::InvalidRecaptcha => "Invalid captcha"@,
        AuthAPIError::IncorrectCredentials => "Unauthorized"@,
        AuthAPIError::MissingToken => "Missing auth token"@,
        AuthAPIError::InvalidToken => "Invalid auth token"@,
        AuthAPIError::UserNotFound => "User not found"@,
    }
}

/// The body of an error response.
#[derive(Debug)]
pub struct ErrorResponse {
    pub error: String,
}

impl AuthAPIError {
    /// The HTTP status that reports this error.
    pub fn status_code(&self) -> (r: u16)
        ensures
            r == status_of(*self),
    {
        match self {
            AuthAPIError::UserAlreadyExists => 409,
            AuthAPIError::InvalidCredentials => 400,
            AuthAPIError::UnexpectedError => 500,
            AuthAPIError::InvalidRecaptcha => 400,
            AuthAPIError::IncorrectCredentials => 401,
            AuthAPIError::MissingToken => 400,
            AuthAPIError::InvalidToken => 401,
            AuthAPIError::UserNotFound => 404,
        }
    }

    /// The text that the client sees; it never tells more than the kind of failure.
    pub fn message(&self) -> (r: &'static str)
        ensures
            r@ == message_of(*self),
    {
        match self {
            AuthAPIError::UserAlreadyExists => "User already exists",
            AuthAPIError::InvalidCredentials => "Invalid credentials",
            AuthAPIError::UnexpectedError => "Unexpected error",
            AuthAPIError::InvalidRecaptcha => "Invalid captcha",
            AuthAPIError::IncorrectCredentials => "Unauthorized",
            AuthAPIError::MissingToken => "Missing auth token",
            AuthAPIError::InvalidToken => "Invalid auth token",
            AuthAPIError::UserNotFound => "User not found",
        }
    }

    pub fn error_response(&self) -> (r: ErrorResponse)
        ensures
            r.error@ == message_of(*self),
    {
        ErrorResponse { error: String::from_str(self.message()) }
    }
}

/// The routes of the service.
#[derive(Debug, Clone, Copy, PartialEq, Eq, Structural)]
pub enum Paths {
    Root,
    Signup,
    Login,
    Logout,
    Verify2FA,
    VerifyToken,
    Users,
}

pub open spec fn path_of(p: Paths) -> Seq<char> {
    match p {
        Paths::Root => "/"@,
        Paths::Signup => "/signup"@,
        Paths::Login => "/login"@,
        Paths::Logout => "/logout"@,
        Paths::Verify2FA => "/verify-2fa"@,
        Paths::VerifyToken => "/verify-token"@,
        Paths::Users => "/users"@,
    }
}

impl Paths {
    pub fn as_str(&self) -> (r: &'static str)
        ensures
            r@ == path_of(*self),
    {
        match self {
            Paths::Root => "/",
            Paths::Signup => "/signup",
            Paths::Login => "/login",
            Paths::Logout => "/logout",
            Paths::Verify2FA => "/verify-2fa",
            Paths::VerifyToken => "/verify-token",
            Paths::Users => "/users",
        }
    }
}

#[derive(Debug)]
pub struct LoginRequest {
    pub email: String,
    pub password: String,
}

#[derive(Debug)]
pub struct TwoFactorAuthResponse {
    pub message: String,
    pub login_attempt_id: String,
}

#[derive(Debug)]
pub enum LoginResponse {
    RegularAuth,
    TwoFactorAuth(TwoFactorAuthResponse),
}

#[derive(Debug)]
pub struct SignupRequest {
    pub email: String,
    pub password: String,
    pub requires_2fa: bool,
    pub recaptcha: String,
}

#[derive(Debug)]
pub struct SignupResponse {
    pub message: String,
}

#[derive(Debug)]
pub struct DeleteUserResponse {
    pub message: String,
}

pub struct Verify2FARequest {
    pub email: String,
    pub two_fa_code: String,
    pub login_attempt_id: String,
}

#[derive(Debug)]
pub struct VerifyTokenRequest {
    pub token: String,
}

} // verus!
