use crate::clock::now_unix_seconds;
use crate::email::Email;
use crate::table::Table;
use crate::two_fa::{LoginAttemptId, TwoFACode};
use vstd::prelude::*;

verus! {

#[derive(Debug, Clone, Copy, PartialEq, Eq, Structural)]
pub enum TwoFACodeStoreError {
    LoginAttemptIdNotFound,
    UnexpectedError,
}

/// How long, in seconds, a challenge stays answerable after it is filed.
pub const TWO_FA_CODE_TTL_SECONDS: i64 = 600;

/// A challenge filed at `created_at` is still pending at `now`.
pub open spec fn challenge_fresh(created_at: int, now: int) -> bool {
    now < created_at + TWO_FA_CODE_TTL_SECONDS
}

/// The challenge store: for each identity, the one pending challenge, as its login-attempt id,
/// its code and the time it was filed.
pub struct HashmapTwoFACodeStore {
    codes: Table<(LoginAttemptId, TwoFACode, i64)>,
}

impl View for HashmapTwoFACodeStore {
    type V = Map<Seq<char>, (Seq<char>, Seq<char>, int)>;

    closed spec fn view(&self) -> Map<Seq<char>, (Seq<char>, Seq<char>, int)> {
        Map::new(
            |k: Seq<char>| self.codes.view().contains_key(k),
            |k: Seq<char>| (self.codes.view()[k].0@, self.codes.view()[k].1@, self.codes.view()[k].2 as int),
        )
    }
}

impl HashmapTwoFACodeStore {
    pub closed spec fn wf(&self) -> bool {
        self.codes.wf()
    }

    pub fn new() -> (s: HashmapTwoFACodeStore)
        ensures
            s.wf(),
            s@ == Map::<Seq<char>, (Seq<char>, Seq<char>, int)>::empty(),
    {
        let s = HashmapTwoFACodeStore { codes: Table::new() };
        assert(s@ =~= Map::<Seq<char>, (Seq<char>, Seq<char>, int)>::empty());
        s
    }

    /// Files a challenge for `email` at time `now`, superseding any pending one.
    pub fn add_code_at(&mut self, email: Email, login_attempt_id: LoginAttemptId, code: TwoFACode, now: i64) -> (r: Result<(), TwoFACodeStoreError>)
        requires
            old(self).wf(),
        ensures
            final(self).wf(),
            r is Ok,
            final(self)@ == old(self)@.insert(email@, (login_attempt_id@, code@, now as int)),
    {
        let ghost before = *self;
        let key = email.as_string().clone();
        self.codes.insert(key, (login_attempt_id, code, now));
        assert(self@ =~= before@.insert(email@, (login_attempt_id@, code@, now as int)));
        Ok(())
    }

    /// Files a challenge for `email` now, superseding any pending one.
    pub fn add_code(&mut self, email: Email, login_attempt_id: LoginAttemptId, code: TwoFACode) -> (r: Result<(), TwoFACodeStoreError>)
        requires
            old(self).wf(),
        ensures
            final(self).wf(),
            r is Ok,
            exists|t: int| final(self)@ == old(self)@.insert(email@, (login_attempt_id@, code@, t)),
    {
        self.add_code_at(email, login_attempt_id, code, now_unix_seconds())
    }

    /// Drops the challenge of `email`, pending or expired; there must be one.
    pub fn remove_code(&mut self, email: &Email) -> (r: Result<(), TwoFACodeStoreError>)
        requires
            old(self).wf(),
        ensures
            final(self).wf(),
            r is Ok <==> old(self)@.contains_key(email@),
            r matches Err(e) ==> e == TwoFACodeStoreError::LoginAttemptIdNotFound,
            final(self)@ == old(self)@.remove(email@),
    {
        let ghost before = *self;
        let removed = self.codes.remove(email.as_string());
        assert(self@ =~= before@.remove(email@));
        match removed {
            Some(_) => Ok(()),
            None => Err(TwoFACodeStoreError::LoginAttemptIdNotFound),
        }
    }

    /// The challenge of `email` that is still pending at time `now`; an expired one counts as
    /// none.
    pub fn get_code_at(&self, email: &Email, now: i64) -> (r: Result<(LoginAttemptId, TwoFACode), TwoFACodeStoreError>)
        requires
            self.wf(),
        ensures
            r is Ok <==> self@.contains_key(email@) && challenge_fresh(self@[email@].2, now as int),
            match r {
                Ok((id, code)) => self@[email@].0 == id@ && self@[email@].1 == code@,
                Err(e) => e == TwoFACodeStoreError::LoginAttemptIdNotFound,
            },
    {
        match self.codes.get(email.as_string()) {
            Some(entry) => {
                if (now as i128) < (entry.2 as i128) + (TWO_FA_CODE_TTL_SECONDS as i128) {
                    Ok((entry.0.duplicate(), entry.1.duplicate()))
                } else {
                    Err(TwoFACodeStoreError::LoginAttemptIdNotFound)
                }
            },
            None => Err(TwoFACodeStoreError::LoginAttemptIdNotFound),
        }
    }

    /// The challenge of `email` that is still pending now.
    pub fn get_code(&self, email: &Email) -> (r: Result<(LoginAttemptId, TwoFACode), TwoFACodeStoreError>)
        requires
            self.wf(),
        ensures
            r is Ok ==> self@.contains_key(email@),
            !self@.contains_key(email@) ==> r is Err,
            match r {
                Ok((id, code)) => self@[email@].0 == id@ && self@[email@].1 == code@,
                Err(e) => e == TwoFACodeStoreError::LoginAttemptIdNotFound,
            },
    {
        self.get_code_at(email, now_unix_seconds())
    }
}

pub const TWO_FA_CODE_PREFIX: &'static str = "two_fa_code:";

/// The key under which a shared key-value store keeps the pending challenge of `email`.
pub fn get_key(email: &Email) -> (r: String)
    ensures
        r@ == TWO_FA_CODE_PREFIX@ + email@,
{
    let mut key = String::from_str(TWO_FA_CODE_PREFIX);
    key.append(email.as_str());
    key
}

} // verus!
