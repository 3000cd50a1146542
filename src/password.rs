use crate::error::ParseError;
use crate::pattern::{finds, pattern_finds};
use vstd::prelude::*;

verus! {

pub open spec fn has_lowercase(s: Seq<char>) -> bool {
    finds("[a-z]+"@, s)
}

pub open spec fn has_uppercase(s: Seq<char>) -> bool {
    finds("[A-Z]+"@, s)
}

pub open spec fn has_digit(s: Seq<char>) -> bool {
    finds("[0-9]+"@, s)
}

/// More than eight bytes in UTF-8 (the byte count of any real text fits in `usize`).
pub open spec fn long_enough(s: Seq<char>) -> bool {
    (vstd::utf8::encode_utf8(s).len() as usize) > 8
}

/// The strength rule: a lower-case letter, an upper-case letter, a digit, and more than
/// eight bytes.
pub open spec fn password_accepted(s: Seq<char>) -> bool {
    has_lowercase(s) && has_uppercase(s) && long_enough(s) && has_digit(s)
}

/// A password that meets the strength rule. Its text is reached through `expose_secret`
/// only, and it has no `Debug`, so that it is not logged by accident.
pub struct Password {
    value: String,
}

impl View for Password {
    type V = Seq<char>;

    closed spec fn view(&self) -> Seq<char> {
        self.value@
    }
}

impl Password {
    /// Accepts `password` exactly when it meets the strength rule.
    pub fn parse(password: String) -> (r: Result<Password, ParseError>)
        ensures
            r is Ok <==> password_accepted(password@),
            match r {
                Ok(p) => p@ == password@,
                Err(e) => e == ParseError::InvalidPassword,
            },
    {
        if validate_password(password.as_str()) {
            Ok(Password { value: password })
        } else {
            Err(ParseError::InvalidPassword)
        }
    }

    pub fn expose_secret(&self) -> (r: &str)
        ensures
            r@ == self@,
    {
        self.value.as_str()
    }

    /// A second handle on the same password.
    pub fn duplicate(&self) -> (r: Password)
        ensures
            r@ == self@,
    {
        Password { value: self.value.clone() }
    }
}

impl PartialEq for Password {
    fn eq(&self, other: &Password) -> bool {
        self.value == other.value
    }
}

impl vstd::std_specs::cmp::PartialEqSpecImpl for Password {
    open spec fn obeys_eq_spec() -> bool {
        true
    }

    open spec fn eq_spec(&self, other: &Password) -> bool {
        self@ == other@
    }
}

pub fn validate_password(password: &str) -> (r: bool)
    ensures
        r == password_accepted(password@),
{
    password_has_lowercase(password) && password_has_uppercase(password)
        && password_has_required_length(password) && password_has_numbers(password)
}

pub fn password_has_uppercase(password: &str) -> (r: bool)
    ensures
        r == has_uppercase(password@),
{
    pattern_finds("[A-Z]+", password)
}

pub fn password_has_lowercase(password: &str) -> (r: bool)
    ensures
        r == has_lowercase(password@),
{
    pattern_finds("[a-z]+", password)
}

pub fn password_has_numbers(password: &str) -> (r: bool)
    ensures
        r == has_digit(password@),
{
    pattern_finds("[0-9]+", password)
}

pub fn password_has_required_length(password: &str) -> (r: bool)
    ensures
        r == long_enough(password@),
{
    password.len() > 8
}

} // verus!
