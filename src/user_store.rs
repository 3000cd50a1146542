use crate::email::Email;
use crate::password::Password;
use crate::table::Table;
use crate::user::User;
use argon2::password_hash::SaltString;
use argon2::{Algorithm, Argon2, Params, PasswordHash, PasswordHasher, PasswordVerifier, Version};
use vstd::prelude::*;

verus! {

/// Whether argon2 accepts `password` against the PHC string `hash`.
pub uninterp spec fn argon2_verifies(hash: Seq<char>, password: Seq<char>) -> bool;

/// Relies on argon2's `PasswordHash::new`, which parses a PHC string, and
/// `PasswordVerifier::verify_password`, which hashes `candidate` again with the algorithm,
/// version, parameters and salt that the string records and compares the outputs; the verdict
/// depends on the two texts alone.
#[verifier::external_body]
fn verify_password_hash(expected_hash: &str, candidate: &str) -> (r: bool)
    ensures
        r == argon2_verifies(expected_hash@, candidate@),
{
    match PasswordHash::new(expected_hash) {
        Ok(h) => Argon2::default().verify_password(candidate.as_bytes(), &h).is_ok(),
        Err(_) => false,
    }
}

/// A password that argon2 takes: at most 0xFFFFFFFF bytes in UTF-8.
pub open spec fn hashable(password: Seq<char>) -> bool {
    vstd::utf8::encode_utf8(password).len() <= 0xFFFF_FFFF
}

/// Relies on argon2's `Params::new`, `SaltString::generate` (fed by rand's `thread_rng`) and
/// `PasswordHasher::hash_password` with Argon2id, version 0x13. `Params::new` accepts the
/// costs that `requires` states, the generated salt has a valid length, and hashing then
/// fails only on a password longer than 0xFFFFFFFF bytes. The result is the PHC string of
/// `password` under a fresh random salt, which `verify_password` accepts for the same
/// password, since it repeats that computation from what the string records.
#[verifier::external_body]
fn compute_password_hash(password: &str, m_cost: u32, t_cost: u32, p_cost: u32) -> (r: Option<String>)
    requires
        8 <= m_cost,
        8 * p_cost <= m_cost,
        1 <= t_cost,
        1 <= p_cost <= 0xFF_FFFF,
    ensures
        hashable(password@) ==> r is Some,
        r matches Some(h) ==> argon2_verifies(h@, password@),
{
    let params = Params::new(m_cost, t_cost, p_cost, None).ok()?;
    let salt = SaltString::generate(&mut rand::thread_rng());
    let hasher = Argon2::new(Algorithm::Argon2id, Version::V0x13, params);
    hasher.hash_password(password.as_bytes(), &salt).ok().map(|h| h.to_string())
}

/// Argon2 memory cost, in KiB.
pub const HASH_MEMORY_KIB: u32 = 15000;

/// Argon2 number of passes.
pub const HASH_ITERATIONS: u32 = 2;

/// Argon2 degree of parallelism.
pub const HASH_PARALLELISM: u32 = 1;

#[derive(Debug, Clone, Copy, PartialEq, Eq, Structural)]
pub enum UserStoreError {
    UserAlreadyExists,
    UserNotFound,
    InvalidCredentials,
    UnexpectedError,
}

/// A stored credential: the password is kept only as its hash.
pub struct Credential {
    pub email: Email,
    pub password_hash: String,
    pub requires_2fa: bool,
}

/// What a credential says: its password hash and whether it asks for a second factor.
pub open spec fn credential_view(c: Credential) -> (Seq<char>, bool) {
    (c.password_hash@, c.requires_2fa)
}

/// What `validate_user` answers for `email` and `password` on a store that holds `users`.
pub open spec fn validation(users: Map<Seq<char>, (Seq<char>, bool)>, email: Seq<char>, password: Seq<char>) -> Result<(), UserStoreError> {
    if !users.contains_key(email) {
        Err(UserStoreError::UserNotFound)
    } else if argon2_verifies(users[email].0, password) {
        Ok(())
    } else {
        Err(UserStoreError::InvalidCredentials)
    }
}

/// The credential store, keyed by e-mail address: at most one credential per identity.
pub struct HashmapUserStore {
    users: Table<Credential>,
}

impl View for HashmapUserStore {
    type V = Map<Seq<char>, (Seq<char>, bool)>;

    closed spec fn view(&self) -> Map<Seq<char>, (Seq<char>, bool)> {
        Map::new(
            |k: Seq<char>| self.users.view().contains_key(k),
            |k: Seq<char>| credential_view(self.users.view()[k]),
        )
    }
}

impl HashmapUserStore {
    /// Each credential is filed under its own address.
    pub closed spec fn wf(&self) -> bool {
        &&& self.users.wf()
        &&& forall|k: Seq<char>| #[trigger] self.users.view().contains_key(k) ==> self.users.view()[k].email@ == k
    }

    pub fn new() -> (s: HashmapUserStore)
        ensures
            s.wf(),
            s@ == Map::<Seq<char>, (Seq<char>, bool)>::empty(),
    {
        let s = HashmapUserStore { users: Table::new() };
        assert(s@ =~= Map::<Seq<char>, (Seq<char>, bool)>::empty());
        s
    }

    /// Stores a credential for a new identity, with the password hashed.
    pub fn add_user(&mut self, user: User) -> (r: Result<(), UserStoreError>)
        requires
            old(self).wf(),
        ensures
            final(self).wf(),
            old(self)@.contains_key(user.email@) ==> r == Err::<(), UserStoreError>(UserStoreError::UserAlreadyExists)
                && final(self)@ == old(self)@,
            !old(self)@.contains_key(user.email@) && hashable(user.password@) ==> r is Ok,
            !old(self)@.contains_key(user.email@) ==> match r {
                Ok(()) => final(self)@.contains_key(user.email@)
                    && final(self)@ == old(self)@.insert(user.email@, final(self)@[user.email@])
                    && final(self)@[user.email@].1 == user.requires_2fa
                    && argon2_verifies(final(self)@[user.email@].0, user.password@),
                Err(e) => e == UserStoreError::UnexpectedError && final(self)@ == old(self)@,
            },
    {
        if self.users.contains_key(user.email.as_string()) {
            return Err(UserStoreError::UserAlreadyExists);
        }
        let hashed = compute_password_hash(
            user.password.expose_secret(),
            HASH_MEMORY_KIB,
            HASH_ITERATIONS,
            HASH_PARALLELISM,
        );
        match hashed {
            None => Err(UserStoreError::UnexpectedError),
            Some(password_hash) => {
                let ghost before = *self;
                let key = user.email.as_string().clone();
                let credential = Credential {
                    email: user.email,
                    password_hash,
                    requires_2fa: user.requires_2fa,
                };
                self.users.insert(key, credential);
                assert(self@ =~= before@.insert(user.email@, self@[user.email@]));
                Ok(())
            },
        }
    }

    /// Removes the credential of `email`.
    pub fn delete_user(&mut self, email: &Email) -> (r: Result<(), UserStoreError>)
        requires
            old(self).wf(),
        ensures
            final(self).wf(),
            r is Ok <==> old(self)@.contains_key(email@),
            r is Ok ==> final(self)@ == old(self)@.remove(email@),
            r matches Err(e) ==> e == UserStoreError::UserNotFound && final(self)@ == old(self)@,
    {
        let ghost before = *self;
        match self.users.remove(email.as_string()) {
            Some(_) => {
                assert(self@ =~= before@.remove(email@));
                Ok(())
            },
            None => {
                assert(self@ =~= before@);
                Err(UserStoreError::UserNotFound)
            },
        }
    }

    pub fn get_user(&self, email: &Email) -> (r: Result<Credential, UserStoreError>)
        requires
            self.wf(),
        ensures
            r is Ok <==> self@.contains_key(email@),
            match r {
                Ok(c) => c.email@ == email@ && credential_view(c) == self@[email@],
                Err(e) => e == UserStoreError::UserNotFound,
            },
    {
        match self.users.get(email.as_string()) {
            Some(c) => Ok(
                Credential {
                    email: c.email.duplicate(),
                    password_hash: c.password_hash.clone(),
                    requires_2fa: c.requires_2fa,
                },
            ),
            None => Err(UserStoreError::UserNotFound),
        }
    }

    /// Checks `password` against the stored hash of `email`.
    pub fn validate_user(&self, email: &Email, password: &Password) -> (r: Result<(), UserStoreError>)
        requires
            self.wf(),
        ensures
            r == validation(self@, email@, password@),
    {
        match self.users.get(email.as_string()) {
            Some(c) => {
                if verify_password_hash(c.password_hash.as_str(), password.expose_secret()) {
                    Ok(())
                } else {
                    Err(UserStoreError::InvalidCredentials)
                }
            },
            None => Err(UserStoreError::UserNotFound),
        }
    }
}

} // verus!
