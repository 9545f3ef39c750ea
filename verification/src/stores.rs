//! The three persistence abstractions of the authentication core, and the
//! client through which a code is sent to a user.
//!
//! Each store describes what it holds by a mathematical model, and each
//! operation says how it reads or changes that model. A backend can be out
//! of reach: then every operation reports `UnexpectedError` and changes
//! nothing. While it is in reach, it answers from its model alone.
//!
//! The contracts bind a store that declares itself `modelled`. A store
//! that cannot describe what it holds, because its entries expire or
//! others write to it, leaves `modelled` at its default, and nothing is
//! assumed of it.

use vstd::prelude::*;
use crate::challenge::{LoginAttemptId, TwoFACode};
use crate::credentials::{Email, Password, User};
use crate::errors::{BannedTokenStoreError, TwoFACodeStoreError, UserStoreError};

verus! {

/// What a user store knows of one user: whether login asks for a second
/// factor, and which passwords it accepts for the user.
pub ghost struct Account {
    pub requires_2fa: bool,
    pub accepts: Set<Seq<char>>,
}

/// A message as it is handed to the mail transport.
pub ghost struct Message {
    pub recipient: Seq<char>,
    pub subject: Seq<char>,
    pub content: Seq<char>,
}

/// The outcome that credential validation owes on a given model: an
/// unknown address is `UserNotFound`, a password that is not accepted is
/// `InvalidCredentials`.
pub open spec fn validation_of(
    accounts: Map<Seq<char>, Account>,
    email: Seq<char>,
    password: Seq<char>,
) -> Result<(), UserStoreError> {
    if !accounts.contains_key(email) {
        Err(UserStoreError::UserNotFound)
    } else if accounts[email].accepts.contains(password) {
        Ok(())
    } else {
        Err(UserStoreError::InvalidCredentials)
    }
}

/// `after` is `before` with one account more, under `email`, which accepts
/// `password`.
pub open spec fn account_added(
    before: Map<Seq<char>, Account>,
    after: Map<Seq<char>, Account>,
    email: Seq<char>,
    password: Seq<char>,
    requires_2fa: bool,
) -> bool {
    &&& !before.contains_key(email)
    &&& after.contains_key(email)
    &&& after.remove(email) == before
    &&& after[email].requires_2fa == requires_2fa
    &&& after[email].accepts.contains(password)
}

/// User records, keyed by address.
pub trait UserStore {
    /// The accounts held, by the text of the address.
    open spec fn accounts(&self) -> Map<Seq<char>, Account> {
        Map::empty()
    }

    /// Whether the store keeps to `accounts` as the contracts below say.
    open spec fn modelled(&self) -> bool {
        false
    }

    /// Whether the backend is in reach.
    open spec fn available(&self) -> bool {
        true
    }

    /// Adds a user whose address is not yet taken. An address that is
    /// taken gives `UserAlreadyExists`, a backend out of reach
    /// `UnexpectedError`; both change nothing.
    fn add_user(&mut self, user: User) -> (r: Result<(), UserStoreError>)
        ensures
            final(self).modelled() == old(self).modelled(),
            old(self).modelled() ==> match r {
                Ok(()) => {
                    &&& old(self).available()
                    &&& account_added(
                        old(self).accounts(),
                        final(self).accounts(),
                        user.email@,
                        user.password@,
                        user.requires_2fa,
                    )
                },
                Err(UserStoreError::UserAlreadyExists) => {
                    &&& old(self).available()
                    &&& old(self).accounts().contains_key(user.email@)
                    &&& final(self).accounts() == old(self).accounts()
                },
                Err(UserStoreError::UnexpectedError) => {
                    &&& !old(self).available()
                    &&& final(self).accounts() == old(self).accounts()
                },
                Err(_) => false,
            },
    ;

    /// The record of the user with this address, or `UserNotFound`.
    fn get_user(&self, email: &Email) -> (r: Result<User, UserStoreError>)
        ensures
            self.modelled() ==> match r {
                Ok(user) => {
                    &&& self.available()
                    &&& self.accounts().contains_key(email@)
                    &&& user.email@ == email@
                    &&& user.requires_2fa == self.accounts()[email@].requires_2fa
                },
                Err(UserStoreError::UserNotFound) => self.available()
                    && !self.accounts().contains_key(email@),
                Err(UserStoreError::UnexpectedError) => !self.available(),
                Err(_) => false,
            },
    ;

    /// Checks a password against the record of the user with this address.
    fn validate_user(&self, email: &Email, password: &Password) -> (r: Result<
        (),
        UserStoreError,
    >)
        ensures
            self.modelled() ==> r == (if self.available() {
                validation_of(self.accounts(), email@, password@)
            } else {
                Err(UserStoreError::UnexpectedError)
            }),
    ;
}

/// The set of revoked session tokens.
pub trait BannedTokenStore {
    /// The revoked tokens.
    open spec fn tokens(&self) -> Set<Seq<char>> {
        Set::empty()
    }

    /// Whether the store keeps to `tokens` as the contracts below say.
    open spec fn modelled(&self) -> bool {
        false
    }

    /// Whether the backend is in reach.
    open spec fn available(&self) -> bool {
        true
    }

    /// Revokes a token. A store may report a token that is already
    /// revoked as `TokenAlreadyExists`; either way the token is revoked
    /// afterwards. A backend out of reach gives `UnexpectedError` and
    /// changes nothing.
    fn add_token(&mut self, token: String) -> (r: Result<(), BannedTokenStoreError>)
        ensures
            final(self).modelled() == old(self).modelled(),
            old(self).modelled() ==> match r {
                Ok(()) => {
                    &&& old(self).available()
                    &&& final(self).tokens() == old(self).tokens().insert(token@)
                },
                Err(BannedTokenStoreError::TokenAlreadyExists) => {
                    &&& old(self).available()
                    &&& old(self).tokens().contains(token@)
                    &&& final(self).tokens() == old(self).tokens()
                },
                Err(BannedTokenStoreError::UnexpectedError) => {
                    &&& !old(self).available()
                    &&& final(self).tokens() == old(self).tokens()
                },
                Err(_) => false,
            },
    ;

    /// The stored entry of a revoked token, or `TokenNotFound`.
    fn get_token(&self, token: &str) -> (r: Result<String, BannedTokenStoreError>)
        ensures
            self.modelled() ==> match r {
                Ok(_) => self.available() && self.tokens().contains(token@),
                Err(BannedTokenStoreError::TokenNotFound) => self.available()
                    && !self.tokens().contains(token@),
                Err(BannedTokenStoreError::UnexpectedError) => !self.available(),
                Err(_) => false,
            },
    ;

    /// Whether a token is revoked.
    fn contains_token(&self, token: &str) -> (r: Result<bool, BannedTokenStoreError>)
        ensures
            self.modelled() ==> r == (if self.available() {
                Ok::<bool, BannedTokenStoreError>(self.tokens().contains(token@))
            } else {
                Err::<bool, BannedTokenStoreError>(BannedTokenStoreError::UnexpectedError)
            }),
    ;
}

/// The pending second-factor challenges, at most one per address.
pub trait TwoFACodeStore {
    /// The pending challenges: for each address the text of the attempt
    /// identifier and of the code.
    open spec fn challenges(&self) -> Map<Seq<char>, (Seq<char>, Seq<char>)> {
        Map::empty()
    }

    /// Whether the store keeps to `challenges` as the contracts below say.
    open spec fn modelled(&self) -> bool {
        false
    }

    /// Whether the backend is in reach.
    open spec fn available(&self) -> bool {
        true
    }

    /// Records a challenge for an address, in place of any challenge that
    /// was pending for it. A backend out of reach gives `UnexpectedError`
    /// and changes nothing.
    fn add_code(&mut self, email: Email, login_attempt_id: LoginAttemptId, code: TwoFACode) -> (r:
        Result<(), TwoFACodeStoreError>)
        ensures
            final(self).modelled() == old(self).modelled(),
            old(self).modelled() ==> match r {
                Ok(()) => {
                    &&& old(self).available()
                    &&& final(self).challenges() == old(self).challenges().insert(
                        email@,
                        (login_attempt_id@, code@),
                    )
                },
                Err(TwoFACodeStoreError::UnexpectedError) => {
                    &&& !old(self).available()
                    &&& final(self).challenges() == old(self).challenges()
                },
                Err(_) => false,
            },
    ;

    /// Drops the challenge pending for an address; that none was pending
    /// is `LoginAttemptIdNotFound`. A backend out of reach gives
    /// `UnexpectedError` and changes nothing.
    fn remove_code(&mut self, email: &Email) -> (r: Result<(), TwoFACodeStoreError>)
        ensures
            final(self).modelled() == old(self).modelled(),
            old(self).modelled() ==> match r {
                Ok(()) => {
                    &&& old(self).available()
                    &&& final(self).challenges() == old(self).challenges().remove(email@)
                },
                Err(TwoFACodeStoreError::LoginAttemptIdNotFound) => {
                    &&& old(self).available()
                    &&& !old(self).challenges().contains_key(email@)
                    &&& final(self).challenges() == old(self).challenges()
                },
                Err(TwoFACodeStoreError::UnexpectedError) => {
                    &&& !old(self).available()
                    &&& final(self).challenges() == old(self).challenges()
                },
            },
    ;

    /// The challenge pending for an address, or `LoginAttemptIdNotFound`.
    fn get_code(&self, email: &Email) -> (r: Result<(LoginAttemptId, TwoFACode), TwoFACodeStoreError>)
        ensures
            self.modelled() ==> match r {
                Ok((id, code)) => {
                    &&& self.available()
                    &&& self.challenges().contains_key(email@)
                    &&& self.challenges()[email@] == (id@, code@)
                },
                Err(TwoFACodeStoreError::LoginAttemptIdNotFound) => self.available()
                    && !self.challenges().contains_key(email@),
                Err(TwoFACodeStoreError::UnexpectedError) => !self.available(),
            },
    ;
}

/// The client through which a message reaches a user.
pub trait EmailClient {
    /// The messages handed to the transport so far, oldest first.
    open spec fn sent(&self) -> Seq<Message> {
        Seq::empty()
    }

    /// Whether the client keeps to `sent` as the contract below says.
    open spec fn modelled(&self) -> bool {
        false
    }

    /// Whether the transport is in reach.
    open spec fn available(&self) -> bool {
        true
    }

    /// Sends `content` with the given subject to `recipient`. A message
    /// that was sent is the last of `sent`; a transport out of reach gives
    /// an error and sends nothing.
    fn send_email(&mut self, recipient: &Email, subject: &str, content: &str) -> (r: Result<
        (),
        String,
    >)
        ensures
            final(self).modelled() == old(self).modelled(),
            old(self).modelled() ==> match r {
                Ok(()) => {
                    &&& old(self).available()
                    &&& final(self).sent() == old(self).sent().push(
                        (Message { recipient: recipient@, subject: subject@, content: content@ }),
                    )
                },
                Err(_) => {
                    &&& !old(self).available()
                    &&& final(self).sent() == old(self).sent()
                },
            },
    ;
}

/// What a recorded message stands for.
pub open spec fn message_of(entry: (String, String, String)) -> Message {
    Message { recipient: entry.0@, subject: entry.1@, content: entry.2@ }
}

/// A client that sends nothing, keeps what it was handed, and reports
/// success.
pub struct MockEmailClient {
    outbox: Vec<(String, String, String)>,
}

impl MockEmailClient {
    /// The messages handed over so far.
    pub closed spec fn recorded(&self) -> Seq<Message> {
        Seq::new(self.outbox@.len(), |i: int| message_of(self.outbox@[i]))
    }

    /// A client that has been handed nothing.
    pub fn new() -> (client: Self)
        ensures
            client.recorded() == Seq::<Message>::empty(),
    {
        let client = MockEmailClient { outbox: Vec::new() };
        assert(client.recorded() =~= Seq::<Message>::empty());
        client
    }

    /// The number of messages handed over so far.
    pub fn count(&self) -> (n: usize)
        ensures
            n == self.recorded().len(),
    {
        self.outbox.len()
    }

    /// The recipient, subject and content of the message at `index`,
    /// oldest first.
    pub fn message(&self, index: usize) -> (m: Option<(&str, &str, &str)>)
        ensures
            match m {
                Some((recipient, subject, content)) => index < self.recorded().len()
                    && self.recorded()[index as int] == (Message {
                    recipient: recipient@,
                    subject: subject@,
                    content: content@,
                }),
                None => index >= self.recorded().len(),
            },
    {
        if index < self.outbox.len() {
            let entry = &self.outbox[index];
            Some((entry.0.as_str(), entry.1.as_str(), entry.2.as_str()))
        } else {
            None
        }
    }
}

impl Default for MockEmailClient {
    fn default() -> (client: Self)
        ensures
            client.recorded() == Seq::<Message>::empty(),
    {
        MockEmailClient::new()
    }
}

impl EmailClient for MockEmailClient {
    open spec fn sent(&self) -> Seq<Message> {
        self.recorded()
    }

    open spec fn modelled(&self) -> bool {
        true
    }

    open spec fn available(&self) -> bool {
        true
    }

    fn send_email(&mut self, recipient: &Email, subject: &str, content: &str) -> (r: Result<
        (),
        String,
    >) {
        self.outbox.push((recipient.to_str().to_owned(), subject.to_owned(), content.to_owned()));
        assert(self.recorded() =~= old(self).recorded().push(
            (Message { recipient: recipient@, subject: subject@, content: content@ }),
        ));
        Ok(())
    }
}

} // verus!
