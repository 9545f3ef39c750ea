//! In-memory stores: the three persistence abstractions kept in process
//! memory, without eviction. They are always in reach, and so never report
//! `UnexpectedError`.

use vstd::prelude::*;
use crate::assoc::TextMap;
use crate::challenge::{LoginAttemptId, TwoFACode};
use crate::credentials::{Email, Password, User, UserView};
use crate::errors::{BannedTokenStoreError, TwoFACodeStoreError, UserStoreError};
use crate::stores::{Account, BannedTokenStore, TwoFACodeStore, UserStore};

verus! {

/// The account that a stored record stands for: the password it holds is
/// the one password accepted.
pub open spec fn account_of(record: UserView) -> Account {
    Account { requires_2fa: record.requires_2fa, accepts: set![record.password] }
}

/// User records in memory, with the password held as given.
pub struct HashmapUserStore {
    users: TextMap<User>,
}

impl HashmapUserStore {
    /// Each record stands under its own address.
    #[verifier::type_invariant]
    spec fn well_formed(&self) -> bool {
        forall|e: Seq<char>| #[trigger] self.users@.contains_key(e) ==> self.users@[e].email@ == e
    }

    /// The records held, by the text of the address.
    pub closed spec fn records(&self) -> Map<Seq<char>, UserView> {
        Map::new(|e: Seq<char>| self.users@.contains_key(e), |e: Seq<char>| self.users@[e]@)
    }

    /// The store without any record.
    pub fn new() -> (s: Self)
        ensures
            s.records() == Map::<Seq<char>, UserView>::empty(),
    {
        let s = HashmapUserStore { users: TextMap::new() };
        assert(s.records() =~= Map::<Seq<char>, UserView>::empty());
        s
    }

    /// Adds `user` unless its address is taken; then nothing changes and
    /// the result is `UserAlreadyExists`.
    pub fn add_user(&mut self, user: User) -> (r: Result<(), UserStoreError>)
        ensures
            old(self).records().contains_key(user.email@) ==> r == Err::<(), UserStoreError>(
                UserStoreError::UserAlreadyExists,
            ) && final(self).records() == old(self).records(),
            !old(self).records().contains_key(user.email@) ==> r == Ok::<(), UserStoreError>(())
                && final(self).records() == old(self).records().insert(user.email@, user@),
    {
        proof {
            use_type_invariant(&*self);
        }
        if self.users.contains_key(user.email.as_string()) {
            return Err(UserStoreError::UserAlreadyExists);
        }
        let key = user.email.as_string().clone();
        let ghost record = user@;
        let mut users: TextMap<User> = TextMap::new();
        core::mem::swap(&mut self.users, &mut users);
        users.insert(key, user);
        core::mem::swap(&mut self.users, &mut users);
        assert(self.records() =~= old(self).records().insert(record.email, record));
        Ok(())
    }

    /// The record under `email`, or `UserNotFound`.
    pub fn get_user(&self, email: &Email) -> (r: Result<&User, UserStoreError>)
        ensures
            match r {
                Ok(user) => self.records().contains_key(email@) && user@ == self.records()[email@]
                    && user.email@ == email@,
                Err(e) => e == UserStoreError::UserNotFound && !self.records().contains_key(
                    email@,
                ),
            },
    {
        proof {
            use_type_invariant(self);
        }
        match self.users.get(email.as_string()) {
            Some(user) => Ok(user),
            None => Err(UserStoreError::UserNotFound),
        }
    }

    /// Accepts `password` exactly when it is the password of the record
    /// under `email`.
    pub fn validate_user(&self, email: &Email, password: &Password) -> (r: Result<
        (),
        UserStoreError,
    >)
        ensures
            r == (if !self.records().contains_key(email@) {
                Err::<(), UserStoreError>(UserStoreError::UserNotFound)
            } else if self.records()[email@].password == password@ {
                Ok::<(), UserStoreError>(())
            } else {
                Err::<(), UserStoreError>(UserStoreError::InvalidCredentials)
            }),
    {
        match self.get_user(email) {
            Ok(user) => {
                if user.password != *password {
                    Err(UserStoreError::InvalidCredentials)
                } else {
                    Ok(())
                }
            },
            Err(e) => Err(e),
        }
    }
}

impl Default for HashmapUserStore {
    fn default() -> (s: Self)
        ensures
            s.records() == Map::<Seq<char>, UserView>::empty(),
    {
        HashmapUserStore::new()
    }
}

impl UserStore for HashmapUserStore {
    open spec fn accounts(&self) -> Map<Seq<char>, Account> {
        Map::new(
            |e: Seq<char>| self.records().contains_key(e),
            |e: Seq<char>| account_of(self.records()[e]),
        )
    }

    open spec fn modelled(&self) -> bool {
        true
    }

    open spec fn available(&self) -> bool {
        true
    }

    fn add_user(&mut self, user: User) -> (r: Result<(), UserStoreError>) {
        let ghost email = user.email@;
        let r = HashmapUserStore::add_user(self, user);
        proof {
            if r is Ok {
                assert(self.accounts().remove(email) =~= old(self).accounts());
            }
        }
        r
    }

    fn get_user(&self, email: &Email) -> (r: Result<User, UserStoreError>) {
        match HashmapUserStore::get_user(self, email) {
            Ok(user) => Ok(user.clone()),
            Err(e) => Err(e),
        }
    }

    fn validate_user(&self, email: &Email, password: &Password) -> (r: Result<
        (),
        UserStoreError,
    >) {
        HashmapUserStore::validate_user(self, email, password)
    }
}

/// Revoked tokens in memory.
pub struct HashsetBannedTokenStore {
    tokens: TextMap<()>,
}

impl HashsetBannedTokenStore {
    /// The revoked tokens.
    pub closed spec fn held(&self) -> Set<Seq<char>> {
        self.tokens@.dom()
    }

    /// The store without any token.
    pub fn new() -> (s: Self)
        ensures
            s.held() == Set::<Seq<char>>::empty(),
    {
        let s = HashsetBannedTokenStore { tokens: TextMap::new() };
        assert(s.held() =~= Set::<Seq<char>>::empty());
        s
    }

    /// Revokes `token` unless it is revoked already; then nothing changes
    /// and the result is `TokenAlreadyExists`.
    pub fn add_token(&mut self, token: String) -> (r: Result<(), BannedTokenStoreError>)
        ensures
            old(self).held().contains(token@) ==> r == Err::<(), BannedTokenStoreError>(
                BannedTokenStoreError::TokenAlreadyExists,
            ) && final(self).held() == old(self).held(),
            !old(self).held().contains(token@) ==> r == Ok::<(), BannedTokenStoreError>(())
                && final(self).held() == old(self).held().insert(token@),
    {
        if self.tokens.contains_key(&token) {
            return Err(BannedTokenStoreError::TokenAlreadyExists);
        }
        let ghost text = token@;
        self.tokens.insert(token, ());
        assert(self.held() =~= old(self).held().insert(text));
        Ok(())
    }

    /// A copy of `token` where it is revoked, `TokenNotFound` where it is
    /// not.
    pub fn get_token(&self, token: &str) -> (r: Result<String, BannedTokenStoreError>)
        ensures
            match r {
                Ok(found) => self.held().contains(token@) && found@ == token@,
                Err(e) => e == BannedTokenStoreError::TokenNotFound && !self.held().contains(
                    token@,
                ),
            },
    {
        let key = token.to_owned();
        if self.tokens.contains_key(&key) {
            Ok(key)
        } else {
            Err(BannedTokenStoreError::TokenNotFound)
        }
    }

    /// Whether `token` is revoked.
    pub fn has_token(&self, token: &str) -> (found: bool)
        ensures
            found == self.held().contains(token@),
    {
        let key = token.to_owned();
        self.tokens.contains_key(&key)
    }
}

impl Default for HashsetBannedTokenStore {
    fn default() -> (s: Self)
        ensures
            s.held() == Set::<Seq<char>>::empty(),
    {
        HashsetBannedTokenStore::new()
    }
}

impl BannedTokenStore for HashsetBannedTokenStore {
    open spec fn tokens(&self) -> Set<Seq<char>> {
        self.held()
    }

    open spec fn modelled(&self) -> bool {
        true
    }

    open spec fn available(&self) -> bool {
        true
    }

    fn add_token(&mut self, token: String) -> (r: Result<(), BannedTokenStoreError>) {
        HashsetBannedTokenStore::add_token(self, token)
    }

    fn get_token(&self, token: &str) -> (r: Result<String, BannedTokenStoreError>) {
        HashsetBannedTokenStore::get_token(self, token)
    }

    fn contains_token(&self, token: &str) -> (r: Result<bool, BannedTokenStoreError>)
        ensures
            r == Ok::<bool, BannedTokenStoreError>(self.held().contains(token@)),
    {
        Ok(self.has_token(token))
    }
}

/// Pending challenges in memory. A new challenge for an address replaces
/// the one that was pending for it.
pub struct HashmapTwoFACodeStore {
    codes: TextMap<(LoginAttemptId, TwoFACode)>,
}

impl HashmapTwoFACodeStore {
    /// The pending challenges, by the text of the address.
    pub closed spec fn pending(&self) -> Map<Seq<char>, (Seq<char>, Seq<char>)> {
        Map::new(
            |e: Seq<char>| self.codes@.contains_key(e),
            |e: Seq<char>| (self.codes@[e].0@, self.codes@[e].1@),
        )
    }

    /// The store without any challenge.
    pub fn new() -> (s: Self)
        ensures
            s.pending() == Map::<Seq<char>, (Seq<char>, Seq<char>)>::empty(),
    {
        let s = HashmapTwoFACodeStore { codes: TextMap::new() };
        assert(s.pending() =~= Map::<Seq<char>, (Seq<char>, Seq<char>)>::empty());
        s
    }
}

impl Default for HashmapTwoFACodeStore {
    fn default() -> (s: Self)
        ensures
            s.pending() == Map::<Seq<char>, (Seq<char>, Seq<char>)>::empty(),
    {
        HashmapTwoFACodeStore::new()
    }
}

impl TwoFACodeStore for HashmapTwoFACodeStore {
    open spec fn challenges(&self) -> Map<Seq<char>, (Seq<char>, Seq<char>)> {
        self.pending()
    }

    open spec fn modelled(&self) -> bool {
        true
    }

    open spec fn available(&self) -> bool {
        true
    }

    fn add_code(&mut self, email: Email, login_attempt_id: LoginAttemptId, code: TwoFACode) -> (r:
        Result<(), TwoFACodeStoreError>)
        ensures
            r is Ok,
    {
        let ghost key = email@;
        let ghost value = (login_attempt_id@, code@);
        self.codes.insert(email.as_string().clone(), (login_attempt_id, code));
        assert(self.pending() =~= old(self).pending().insert(key, value));
        Ok(())
    }

    fn remove_code(&mut self, email: &Email) -> (r: Result<(), TwoFACodeStoreError>)
        ensures
            r is Ok <==> old(self).pending().contains_key(email@),
    {
        if self.codes.remove(email.as_string()) {
            assert(self.pending() =~= old(self).pending().remove(email@));
            Ok(())
        } else {
            assert(self.pending() =~= old(self).pending());
            Err(TwoFACodeStoreError::LoginAttemptIdNotFound)
        }
    }

    fn get_code(&self, email: &Email) -> (r: Result<(LoginAttemptId, TwoFACode), TwoFACodeStoreError>)
        ensures
            r is Ok <==> self.pending().contains_key(email@),
    {
        match self.codes.get(email.as_string()) {
            Some(entry) => Ok((entry.0.clone(), entry.1.clone())),
            None => Err(TwoFACodeStoreError::LoginAttemptIdNotFound),
        }
    }
}

} // verus!
