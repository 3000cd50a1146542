use vstd::prelude::*;

verus! {

/// Why a piece of user input was refused.
#[derive(Debug, Clone, Copy, PartialEq, Eq, Structural)]
pub enum ParseError {
    InvalidEmail,
    InvalidPassword,
    InvalidLoginAttemptId,
    InvalidTwoFACode,
}

} // verus!
