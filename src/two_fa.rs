use crate::error::ParseError;
use crate::pattern::{finds, pattern_finds};
use rand::Rng;
use vstd::prelude::*;

verus! {

/// The canonical text (lower-case, hyphenated) of the UUID that `s` spells, if it spells one.
pub uninterp spec fn uuid_canonical(s: Seq<char>) -> Option<Seq<char>>;

/// Relies on `uuid::Uuid::parse_str`, which accepts the textual forms of a UUID, and on its
/// `Display`, which writes the hyphenated form of 36 characters; the result depends on the
/// text alone.
#[verifier::external_body]
fn canonical_uuid(s: &str) -> (r: Option<String>)
    ensures
        match r {
            Some(c) => uuid_canonical(s@) == Some(c@) && c@.len() == 36,
            None => uuid_canonical(s@) is None,
        },
{
    uuid::Uuid::parse_str(s).ok().map(|u| u.to_string())
}

/// Relies on `uuid::Uuid::new_v4`, a random UUID, written in its hyphenated form of 36
/// characters.
#[verifier::external_body]
fn fresh_uuid() -> (r: String)
    ensures
        r@.len() == 36,
{
    uuid::Uuid::new_v4().to_string()
}

/// Relies on rand's `thread_rng().gen_range(low..=high)`: a number in the closed range,
/// which must not be empty.
#[verifier::external_body]
fn random_in_range(low: u32, high: u32) -> (r: u32)
    requires
        low <= high,
    ensures
        low <= r <= high,
{
    rand::thread_rng().gen_range(low..=high)
}

/// The identifier of one login attempt that awaits its second factor.
#[derive(Debug, Clone)]
pub struct LoginAttemptId {
    value: String,
}

impl View for LoginAttemptId {
    type V = Seq<char>;

    closed spec fn view(&self) -> Seq<char> {
        self.value@
    }
}

impl LoginAttemptId {
    /// Accepts `id` exactly when it spells a UUID, and keeps its canonical form.
    pub fn parse(id: String) -> (r: Result<LoginAttemptId, ParseError>)
        ensures
            r is Ok <==> uuid_canonical(id@) is Some,
            match r {
                Ok(a) => uuid_canonical(id@) == Some(a@),
                Err(e) => e == ParseError::InvalidLoginAttemptId,
            },
    {
        match canonical_uuid(id.as_str()) {
            Some(c) => Ok(LoginAttemptId { value: c }),
            None => Err(ParseError::InvalidLoginAttemptId),
        }
    }

    pub fn as_str(&self) -> (r: &str)
        ensures
            r@ == self@,
    {
        self.value.as_str()
    }

    /// Whether `text` is exactly this value.
    pub fn matches_text(&self, text: &String) -> (r: bool)
        ensures
            r == (self@ == text@),
    {
        self.value == *text
    }

    pub fn duplicate(&self) -> (r: LoginAttemptId)
        ensures
            r@ == self@,
    {
        LoginAttemptId { value: self.value.clone() }
    }
}

impl Default for LoginAttemptId {
    /// A fresh random identifier.
    fn default() -> (r: LoginAttemptId)
        ensures
            r@.len() == 36,
    {
        LoginAttemptId { value: fresh_uuid() }
    }
}

impl PartialEq for LoginAttemptId {
    fn eq(&self, other: &LoginAttemptId) -> bool {
        self.value == other.value
    }
}

impl vstd::std_specs::cmp::PartialEqSpecImpl for LoginAttemptId {
    open spec fn obeys_eq_spec() -> bool {
        true
    }

    open spec fn eq_spec(&self, other: &LoginAttemptId) -> bool {
        self@ == other@
    }
}

pub const CODE_LOW: u32 = 100000;

pub const CODE_HIGH: u32 = 999999;

/// The pattern of a second-factor code: the whole text is six ASCII digits.
pub open spec fn code_pattern_ok(s: Seq<char>) -> bool {
    finds("^[0-9]{6}\\z"@, s)
}

pub open spec fn digit_char(d: int) -> char {
    if d == 0 {
        '0'
    } else if d == 1 {
        '1'
    } else if d == 2 {
        '2'
    } else if d == 3 {
        '3'
    } else if d == 4 {
        '4'
    } else if d == 5 {
        '5'
    } else if d == 6 {
        '6'
    } else if d == 7 {
        '7'
    } else if d == 8 {
        '8'
    } else {
        '9'
    }
}

/// The decimal text of a number of six digits.
pub open spec fn six_digits(n: int) -> Seq<char> {
    seq![
        digit_char(n / 100000),
        digit_char((n / 10000) % 10),
        digit_char((n / 1000) % 10),
        digit_char((n / 100) % 10),
        digit_char((n / 10) % 10),
        digit_char(n % 10),
    ]
}

fn digit_text(d: u32) -> (r: &'static str)
    requires
        d < 10,
    ensures
        r@ == seq![digit_char(d as int)],
{
    proof {
        reveal_strlit("0");
        reveal_strlit("1");
        reveal_strlit("2");
        reveal_strlit("3");
        reveal_strlit("4");
        reveal_strlit("5");
        reveal_strlit("6");
        reveal_strlit("7");
        reveal_strlit("8");
        reveal_strlit("9");
    }
    let r = if d == 0 {
        "0"
    } else if d == 1 {
        "1"
    } else if d == 2 {
        "2"
    } else if d == 3 {
        "3"
    } else if d == 4 {
        "4"
    } else if d == 5 {
        "5"
    } else if d == 6 {
        "6"
    } else if d == 7 {
        "7"
    } else if d == 8 {
        "8"
    } else {
        "9"
    };
    assert(r@ =~= seq![digit_char(d as int)]);
    r
}

/// Writes a number of six digits in decimal.
pub fn six_digit_text(n: u32) -> (r: String)
    requires
        CODE_LOW <= n <= CODE_HIGH,
    ensures
        r@ == six_digits(n as int),
{
    let mut s = String::new();
    s.append(digit_text(n / 100000));
    s.append(digit_text((n / 10000) % 10));
    s.append(digit_text((n / 1000) % 10));
    s.append(digit_text((n / 100) % 10));
    s.append(digit_text((n / 10) % 10));
    s.append(digit_text(n % 10));
    assert(s@ =~= six_digits(n as int));
    s
}

/// A second-factor code. Its text is reached through `expose_secret` only, and it has no
/// `Debug`, so that it is not logged by accident.
#[derive(Clone)]
pub struct TwoFACode {
    value: String,
}

impl View for TwoFACode {
    type V = Seq<char>;

    closed spec fn view(&self) -> Seq<char> {
        self.value@
    }
}

impl TwoFACode {
    /// Accepts `code` exactly when it is six ASCII digits.
    pub fn parse(code: String) -> (r: Result<TwoFACode, ParseError>)
        ensures
            r is Ok <==> code_pattern_ok(code@),
            match r {
                Ok(c) => c@ == code@,
                Err(e) => e == ParseError::InvalidTwoFACode,
            },
    {
        if pattern_finds("^[0-9]{6}\\z", code.as_str()) {
            Ok(TwoFACode { value: code })
        } else {
            Err(ParseError::InvalidTwoFACode)
        }
    }

    /// The code for the number `n`, of six digits.
    pub fn from_number(n: u32) -> (r: TwoFACode)
        requires
            CODE_LOW <= n <= CODE_HIGH,
        ensures
            r@ == six_digits(n as int),
    {
        TwoFACode { value: six_digit_text(n) }
    }

    pub fn expose_secret(&self) -> (r: &str)
        ensures
            r@ == self@,
    {
        self.value.as_str()
    }

    /// Whether `text` is exactly this value.
    pub fn matches_text(&self, text: &String) -> (r: bool)
        ensures
            r == (self@ == text@),
    {
        self.value == *text
    }

    pub fn duplicate(&self) -> (r: TwoFACode)
        ensures
            r@ == self@,
    {
        TwoFACode { value: self.value.clone() }
    }
}

impl Default for TwoFACode {
    /// A fresh random code of six digits, the first of which is not zero.
    fn default() -> (r: TwoFACode)
        ensures
            exists|n: int| CODE_LOW <= n <= CODE_HIGH && r@ == six_digits(n),
    {
        let n = random_in_range(CODE_LOW, CODE_HIGH);
        TwoFACode::from_number(n)
    }
}

impl PartialEq for TwoFACode {
    fn eq(&self, other: &TwoFACode) -> bool {
        self.value == other.value
    }
}

impl vstd::std_specs::cmp::PartialEqSpecImpl for TwoFACode {
    open spec fn obeys_eq_spec() -> bool {
        true
    }

    open spec fn eq_spec(&self, other: &TwoFACode) -> bool {
        self@ == other@
    }
}

} // verus!
