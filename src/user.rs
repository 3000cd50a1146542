use crate::email::Email;
use crate::password::Password;
use vstd::prelude::*;

verus! {

/// What a signup hands to the credential store: the password is still in clear.
pub struct User {
    pub email: Email,
    pub password: Password,
    pub requires_2fa: bool,
}

impl User {
    pub fn new(email: Email, password: Password, requires_2fa: bool) -> (r: User)
        ensures
            r.email@ == email@,
            r.password@ == password@,
            r.requires_2fa == requires_2fa,
    {
        User { email, password, requires_2fa }
    }
}

} // verus!
