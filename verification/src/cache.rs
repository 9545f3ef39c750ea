//! The layout of a cache backend: under which key a revoked token and a
//! pending challenge are kept, for how long, in which form, and what the
//! replies of the cache stand for.

use vstd::prelude::*;
use vstd::string::StringExecFns;
use crate::challenge::{is_valid_code, uuid_canonical_text, LoginAttemptId, TwoFACode};
use crate::credentials::Email;
use crate::errors::{BannedTokenStoreError, TwoFACodeStoreError};
use crate::token::TOKEN_TTL_SECONDS;

verus! {

/// Prefix of the keys of revoked tokens.
pub const BANNED_TOKEN_KEY_PREFIX: &'static str = "banned_token:";

/// Prefix of the keys of pending challenges.
pub const TWO_FA_CODE_PREFIX: &'static str = "two_fa_code:";

/// Lifetime of a pending challenge, in seconds.
pub const TEN_MINUTES_IN_SECONDS: u64 = 600;

/// The key of a revoked token: the prefix, then the token itself.
pub fn get_key(token: &str) -> (key: String)
    ensures
        key@ == BANNED_TOKEN_KEY_PREFIX@ + token@,
{
    let mut key = String::from_str(BANNED_TOKEN_KEY_PREFIX);
    key.append(token);
    key
}

/// The key of the challenge pending for an address: the prefix, then the
/// address.
pub fn challenge_key(email: &Email) -> (key: String)
    ensures
        key@ == TWO_FA_CODE_PREFIX@ + email@,
{
    let mut key = String::from_str(TWO_FA_CODE_PREFIX);
    key.append(email.to_str());
    key
}

/// The lifetime of a revoked token in the cache: that of a session token,
/// so that the entry goes when the token would have expired.
pub fn banned_token_ttl() -> (r: Result<u64, BannedTokenStoreError>)
    ensures
        r == Ok::<u64, BannedTokenStoreError>(600),
{
    if TOKEN_TTL_SECONDS < 0 {
        Err(BannedTokenStoreError::UnexpectedError)
    } else {
        Ok(TOKEN_TTL_SECONDS as u64)
    }
}

/// What the reply to a lookup of a revoked token stands for: the stored
/// value, `TokenNotFound` where the key is absent, `UnexpectedError`
/// where the cache failed.
pub fn token_from_reply(reply: Result<Option<String>, String>) -> (r: Result<
    String,
    BannedTokenStoreError,
>)
    ensures
        match reply {
            Ok(Some(value)) => r == Ok::<String, BannedTokenStoreError>(value),
            Ok(None) => r == Err::<String, BannedTokenStoreError>(
                BannedTokenStoreError::TokenNotFound,
            ),
            Err(_) => r == Err::<String, BannedTokenStoreError>(
                BannedTokenStoreError::UnexpectedError,
            ),
        },
{
    match reply {
        Ok(Some(value)) => Ok(value),
        Ok(None) => Err(BannedTokenStoreError::TokenNotFound),
        Err(_) => Err(BannedTokenStoreError::UnexpectedError),
    }
}

/// What the reply to an existence check stands for.
pub fn presence_from_reply(reply: Result<bool, String>) -> (r: Result<bool, BannedTokenStoreError>)
    ensures
        match reply {
            Ok(found) => r == Ok::<bool, BannedTokenStoreError>(found),
            Err(_) => r == Err::<bool, BannedTokenStoreError>(
                BannedTokenStoreError::UnexpectedError,
            ),
        },
{
    match reply {
        Ok(found) => Ok(found),
        Err(_) => Err(BannedTokenStoreError::UnexpectedError),
    }
}

/// What `serde_json::to_string` makes of a pair of texts: the text of a
/// JSON array of the two, or `None` where it reports an error.
pub uninterp spec fn json_pair_text(first: Seq<char>, second: Seq<char>) -> Option<Seq<char>>;

/// What `serde_json::from_str` reads from a text as a pair of texts, or
/// `None` where it reports an error.
pub uninterp spec fn json_pair_read(text: Seq<char>) -> Option<(Seq<char>, Seq<char>)>;

/// Calls `serde_json::to_string` on the pair of the two texts. The
/// contract names the outcome and claims one thing of a text that was
/// written: `serde_json::from_str` reads the same pair back from it.
#[verifier::external_body]
fn write_json_pair(first: &str, second: &str) -> (r: Option<String>)
    ensures
        json_pair_text(first@, second@) == match r {
            Some(text) => Some(text@),
            None => None,
        },
        r matches Some(text) ==> json_pair_read(text@) == Some((first@, second@)),
{
    serde_json::to_string(&(first, second)).ok()
}

/// Calls `serde_json::from_str` to read a pair of texts. The contract
/// names the outcome.
#[verifier::external_body]
fn read_json_pair(text: &str) -> (r: Option<(String, String)>)
    ensures
        json_pair_read(text@) == match r {
            Some((first, second)) => Some((first@, second@)),
            None => None,
        },
{
    serde_json::from_str::<(String, String)>(text).ok()
}

/// The challenge that a pair of stored texts stands for, where the first
/// names an attempt identifier and the second is a code.
pub open spec fn challenge_of_pair(pair: (Seq<char>, Seq<char>)) -> Option<
    (Seq<char>, Seq<char>),
> {
    match uuid_canonical_text(pair.0) {
        Some(id) => if is_valid_code(pair.1) {
            Some((id, pair.1))
        } else {
            None
        },
        None => None,
    }
}

/// The stored form of a challenge: the attempt identifier and the code as
/// a serialized pair, from which `challenge_from_reply` reads the same
/// challenge back. A failure to serialize is `UnexpectedError`.
pub fn encode_challenge(login_attempt_id: &LoginAttemptId, code: &TwoFACode) -> (r: Result<
    String,
    TwoFACodeStoreError,
>)
    ensures
        match r {
            Ok(text) => {
                &&& json_pair_text(login_attempt_id@, code@) == Some(text@)
                &&& json_pair_read(text@) == Some((login_attempt_id@, code@))
                &&& challenge_of_pair((login_attempt_id@, code@)) == Some(
                    (login_attempt_id@, code@),
                )
            },
            Err(e) => e == TwoFACodeStoreError::UnexpectedError && json_pair_text(
                login_attempt_id@,
                code@,
            ) is None,
        },
{
    match write_json_pair(login_attempt_id.as_str(), code.as_str()) {
        Some(text) => Ok(text),
        None => Err(TwoFACodeStoreError::UnexpectedError),
    }
}

/// Reads a challenge from a pair of stored texts. Either text being
/// malformed is `UnexpectedError`.
pub fn challenge_from_pair(id: String, code: String) -> (r: Result<
    (LoginAttemptId, TwoFACode),
    TwoFACodeStoreError,
>)
    ensures
        match r {
            Ok((login_attempt_id, two_fa_code)) => challenge_of_pair((id@, code@)) == Some(
                (login_attempt_id@, two_fa_code@),
            ),
            Err(e) => e == TwoFACodeStoreError::UnexpectedError && challenge_of_pair((id@, code@))
                is None,
        },
{
    let login_attempt_id = match LoginAttemptId::parse(id) {
        Ok(v) => v,
        Err(_) => return Err(TwoFACodeStoreError::UnexpectedError),
    };
    let two_fa_code = match TwoFACode::parse(code) {
        Ok(v) => v,
        Err(_) => return Err(TwoFACodeStoreError::UnexpectedError),
    };
    Ok((login_attempt_id, two_fa_code))
}

/// What the reply to a lookup of a challenge stands for: the challenge
/// that the stored text holds; `LoginAttemptIdNotFound` where the key is
/// absent; `UnexpectedError` where the cache failed or the value is no
/// serialized challenge.
pub fn challenge_from_reply(reply: Result<Option<String>, String>) -> (r: Result<
    (LoginAttemptId, TwoFACode),
    TwoFACodeStoreError,
>)
    ensures
        match reply {
            Err(_) => r == Err::<(LoginAttemptId, TwoFACode), TwoFACodeStoreError>(
                TwoFACodeStoreError::UnexpectedError,
            ),
            Ok(None) => r == Err::<(LoginAttemptId, TwoFACode), TwoFACodeStoreError>(
                TwoFACodeStoreError::LoginAttemptIdNotFound,
            ),
            Ok(Some(text)) => match json_pair_read(text@) {
                None => r == Err::<(LoginAttemptId, TwoFACode), TwoFACodeStoreError>(
                    TwoFACodeStoreError::UnexpectedError,
                ),
                Some(pair) => match r {
                    Ok((id, code)) => challenge_of_pair(pair) == Some((id@, code@)),
                    Err(e) => e == TwoFACodeStoreError::UnexpectedError && challenge_of_pair(pair)
                        is None,
                },
            },
        },
{
    match reply {
        Err(_) => Err(TwoFACodeStoreError::UnexpectedError),
        Ok(None) => Err(TwoFACodeStoreError::LoginAttemptIdNotFound),
        Ok(Some(text)) => match read_json_pair(text.as_str()) {
            None => Err(TwoFACodeStoreError::UnexpectedError),
            Some((id, code)) => challenge_from_pair(id, code),
        },
    }
}

} // verus!
