use crate::table::Table;
use vstd::prelude::*;

verus! {

#[derive(Debug, Clone, Copy, PartialEq, Eq, Structural)]
pub enum BannedTokenStoreError {
    InvalidToken,
    UnexpectedError,
}

/// The revocation store: the session tokens that may no longer authenticate anyone.
pub struct HashsetBannedTokenStore {
    tokens: Table<()>,
}

impl View for HashsetBannedTokenStore {
    type V = Set<Seq<char>>;

    closed spec fn view(&self) -> Set<Seq<char>> {
        self.tokens.view().dom()
    }
}

impl HashsetBannedTokenStore {
    pub closed spec fn wf(&self) -> bool {
        self.tokens.wf()
    }

    pub fn new() -> (s: HashsetBannedTokenStore)
        ensures
            s.wf(),
            s@ == Set::<Seq<char>>::empty(),
    {
        let s = HashsetBannedTokenStore { tokens: Table::new() };
        assert(s@ =~= Set::<Seq<char>>::empty());
        s
    }

    /// Revokes `token`; revoking it again changes nothing.
    pub fn add_token(&mut self, token: String) -> (r: Result<(), BannedTokenStoreError>)
        requires
            old(self).wf(),
        ensures
            final(self).wf(),
            r is Ok,
            final(self)@ == old(self)@.insert(token@),
    {
        let ghost before = *self;
        self.tokens.insert(token, ());
        assert(self@ =~= before@.insert(token@));
        Ok(())
    }

    pub fn contains_token(&self, token: &String) -> (r: Result<bool, BannedTokenStoreError>)
        requires
            self.wf(),
        ensures
            r == Ok::<bool, BannedTokenStoreError>(self@.contains(token@)),
    {
        Ok(self.tokens.contains_key(token))
    }

    /// Refuses a revoked token.
    pub fn validate_token(&self, token: &String) -> (r: Result<(), BannedTokenStoreError>)
        requires
            self.wf(),
        ensures
            r is Ok <==> !self@.contains(token@),
            r matches Err(e) ==> e == BannedTokenStoreError::InvalidToken,
    {
        if self.tokens.contains_key(token) {
            Err(BannedTokenStoreError::InvalidToken)
        } else {
            Ok(())
        }
    }

    /// Forgets every revocation.
    pub fn empty_store(&mut self) -> (r: Result<(), BannedTokenStoreError>)
        ensures
            final(self).wf(),
            r is Ok,
            final(self)@ == Set::<Seq<char>>::empty(),
    {
        self.tokens.clear();
        assert(self@ =~= Set::<Seq<char>>::empty());
        Ok(())
    }
}

pub const BANNED_TOKEN_KEY_PREFIX: &'static str = "banned_token:";

/// The key under which a shared key-value store records the revocation of `token`.
pub fn get_key(token: &str) -> (r: String)
    ensures
        r@ == BANNED_TOKEN_KEY_PREFIX@ + token@,
{
    let mut key = String::from_str(BANNED_TOKEN_KEY_PREFIX);
    key.append(token);
    key
}

} // verus!
