use crate::error::ParseError;
use validator::ValidateEmail;
use vstd::prelude::*;

verus! {

/// Whether the `validator` crate accepts `s` as an e-mail address.
pub uninterp spec fn email_syntax_ok(s: Seq<char>) -> bool;

/// Relies on validator's `ValidateEmail::validate_email` for `&str`: its verdict depends on
/// the text alone, and it refuses an empty text, a text without `@`, and a text whose
/// local part (before the last `@`) is empty or holds an `@`, so one that starts with `@`.
#[verifier::external_body]
fn validate_email_syntax(s: &str) -> (r: bool)
    ensures
        r == email_syntax_ok(s@),
        r ==> s@.len() > 0 && s@.contains('@') && s@[0] != '@',
{
    s.validate_email()
}

/// A syntactically valid e-mail address, the identity of a user.
#[derive(Debug, Clone)]
pub struct Email {
    value: String,
}

impl View for Email {
    type V = Seq<char>;

    closed spec fn view(&self) -> Seq<char> {
        self.value@
    }
}

impl Email {
    /// Accepts `email` exactly when it is a valid address.
    pub fn parse(email: String) -> (r: Result<Email, ParseError>)
        ensures
            r is Ok <==> email_syntax_ok(email@),
            match r {
                Ok(e) => e@ == email@,
                Err(err) => err == ParseError::InvalidEmail,
            },
    {
        if validate_email_syntax(email.as_str()) {
            Ok(Email { value: email })
        } else {
            Err(ParseError::InvalidEmail)
        }
    }

    pub fn as_str(&self) -> (r: &str)
        ensures
            r@ == self@,
    {
        self.value.as_str()
    }

    pub fn as_string(&self) -> (r: &String)
        ensures
            r@ == self@,
    {
        &self.value
    }

    /// A second handle on the same address.
    pub fn duplicate(&self) -> (r: Email)
        ensures
            r@ == self@,
    {
        Email { value: self.value.clone() }
    }
}

impl PartialEq for Email {
    fn eq(&self, other: &Email) -> bool {
        self.value == other.value
    }
}

impl vstd::std_specs::cmp::PartialEqSpecImpl for Email {
    open spec fn obeys_eq_spec() -> bool {
        true
    }

    open spec fn eq_spec(&self, other: &Email) -> bool {
        self@ == other@
    }
}

impl Eq for Email {
}

} // verus!
