//! The session token service: issues signed, expiring session tokens and
//! verifies them against the revoked-token store.

use vstd::prelude::*;
use jsonwebtoken::errors::ErrorKind;
use jsonwebtoken::{decode, encode, DecodingKey, EncodingKey, Header, Validation};
use serde_json::Value;
use crate::credentials::Email;
use crate::errors::BannedTokenStoreError;
use crate::stores::BannedTokenStore;

verus! {

/// How long a session token is valid, in seconds.
pub const TOKEN_TTL_SECONDS: i64 = 600;

/// Name of the cookie that carries the session token.
pub const JWT_COOKIE_NAME: &'static str = "jwt";

/// Path of the session cookie: every URL of the server.
pub const COOKIE_PATH: &'static str = "/";

/// Name of the claim that holds the subject.
pub const SUBJECT_CLAIM: &'static str = "sub";

/// Name of the claim that holds the expiry.
pub const EXPIRY_CLAIM: &'static str = "exp";

/// The claims of a session token: the address of the user and the expiry
/// as a Unix timestamp.
#[derive(Debug)]
pub struct Claims {
    pub sub: String,
    pub exp: usize,
}

/// Why a token was not issued or not accepted.
#[derive(Debug, Clone, Copy, PartialEq, Eq, Structural)]
pub enum TokenError {
    /// The token is revoked.
    Banned,
    /// The token is not a token signed here, or lacks a claim.
    Malformed,
    /// The token has expired.
    Expired,
    /// The revoked-token store could not be asked.
    StoreFailure,
    /// The expiry does not fit the claim.
    ExpiryOutOfRange,
    /// The claims could not be signed.
    SigningFailed,
}

/// Why the signature check turned a token down.
#[derive(Debug, Clone, Copy, PartialEq, Eq, Structural)]
pub enum DecodeFault {
    Expired,
    Rejected,
}

/// The cross-site policy of a cookie.
#[derive(Debug, Clone, Copy, PartialEq, Eq, Structural)]
pub enum SameSite {
    Strict,
    Lax,
    Unrestricted,
}

/// The session cookie, as plain values.
pub struct AuthCookie {
    pub name: String,
    pub value: String,
    pub path: String,
    pub http_only: bool,
    pub same_site: SameSite,
    pub max_age_seconds: i64,
}

/// The process-wide signing secret. It is never empty.
pub struct SigningSecret {
    secret: String,
}

impl View for SigningSecret {
    type V = Seq<char>;

    closed spec fn view(&self) -> Seq<char> {
        self.secret@
    }
}

impl SigningSecret {
    /// The secret is not empty.
    #[verifier::type_invariant]
    spec fn well_formed(&self) -> bool {
        self.secret@.len() > 0
    }

    /// Accepts any secret but the empty one.
    pub fn parse(secret: String) -> (r: Option<SigningSecret>)
        ensures
            match r {
                Some(s) => secret@.len() > 0 && s@ == secret@,
                None => secret@.len() == 0,
            },
    {
        if secret.as_str().is_empty() {
            None
        } else {
            Some(SigningSecret { secret })
        }
    }

    /// The secret text, which is not empty.
    pub fn expose(&self) -> (s: &str)
        ensures
            s@ == self@,
            s@.len() > 0,
    {
        proof {
            use_type_invariant(self);
        }
        self.secret.as_str()
    }
}

/// What `jsonwebtoken::encode` returns for the default header, a claim set
/// of the two named claims and a key made of `secret`: the token, or `None`
/// where it reports an error.
pub uninterp spec fn signed_token(
    subject_claim: Seq<char>,
    subject: Seq<char>,
    expiry_claim: Seq<char>,
    expiry: usize,
    secret: Seq<char>,
) -> Option<Seq<char>>;

/// Calls `jsonwebtoken::encode` with the default header, a claim set that
/// holds `subject` and `expiry` under the two given names, and a key made
/// of `secret` by `EncodingKey::from_secret`. The contract names the
/// outcome and claims of a token only that it is not empty: the call joins
/// three parts with dots.
#[verifier::external_body]
fn sign_claims(
    subject_claim: &str,
    subject: &str,
    expiry_claim: &str,
    expiry: usize,
    secret: &str,
) -> (r: Option<String>)
    ensures
        signed_token(subject_claim@, subject@, expiry_claim@, expiry, secret@) == match r {
            Some(token) => Some(token@),
            None => None,
        },
        r matches Some(token) ==> token@.len() > 0,
{
    let mut claims = serde_json::Map::new();
    claims.insert(subject_claim.to_owned(), Value::from(subject));
    claims.insert(expiry_claim.to_owned(), Value::from(expiry));
    let key = EncodingKey::from_secret(secret.as_bytes());
    encode(&Header::default(), &claims, &key).ok()
}

/// Calls `jsonwebtoken::decode` with a key made of `secret` by
/// `DecodingKey::from_secret` and the default validation, and picks the two
/// named claims out of the claim set: the first as text, the second as a
/// number. The outcome depends on the clock, so the contract claims
/// nothing of it.
#[verifier::external_body]
fn decode_claims(token: &str, secret: &str, subject_claim: &str, expiry_claim: &str) -> (r: Result<
    (Option<String>, Option<u64>),
    DecodeFault,
>) {
    let key = DecodingKey::from_secret(secret.as_bytes());
    match decode::<Value>(token, &key, &Validation::default()) {
        Ok(data) => Ok(
            (
                data.claims.get(subject_claim).and_then(|v| v.as_str()).map(|s| s.to_owned()),
                data.claims.get(expiry_claim).and_then(|v| v.as_u64()),
            ),
        ),
        Err(e) => match e.kind() {
            ErrorKind::ExpiredSignature => Err(DecodeFault::Expired),
            _ => Err(DecodeFault::Rejected),
        },
    }
}

/// Calls `chrono::Utc::now` and takes its Unix timestamp. The contract
/// claims nothing of the time read.
#[verifier::external_body]
pub(crate) fn unix_now() -> (now: i64) {
    chrono::Utc::now().timestamp()
}

/// The expiry of a token issued at `now`: `now` plus the token lifetime,
/// where that is a timestamp the claim can hold.
pub open spec fn expiry_of(now: i64) -> Option<usize> {
    if 0 <= now + TOKEN_TTL_SECONDS <= i64::MAX && now + TOKEN_TTL_SECONDS <= usize::MAX {
        Some((now + TOKEN_TTL_SECONDS) as usize)
    } else {
        None
    }
}

/// The token that is issued to `subject` at `now`.
pub open spec fn token_issued_at(subject: Seq<char>, now: i64, secret: Seq<char>) -> Result<
    Seq<char>,
    TokenError,
> {
    match expiry_of(now) {
        None => Err(TokenError::ExpiryOutOfRange),
        Some(expiry) => match signed_token(
            SUBJECT_CLAIM@,
            subject,
            EXPIRY_CLAIM@,
            expiry,
            secret,
        ) {
            Some(token) => Ok(token),
            None => Err(TokenError::SigningFailed),
        },
    }
}

/// Computes the expiry of a token issued at `now`.
pub fn expiry_at(now: i64) -> (r: Option<usize>)
    ensures
        r == expiry_of(now),
{
    if now > i64::MAX - TOKEN_TTL_SECONDS {
        return None;
    }
    let expiry: i64 = now + TOKEN_TTL_SECONDS;
    if expiry < 0 {
        return None;
    }
    let wide: u64 = expiry as u64;
    if wide > usize::MAX as u64 {
        return None;
    }
    Some(wide as usize)
}

/// Signs a claim set with the secret.
pub fn create_token(claims: &Claims, secret: &SigningSecret) -> (r: Result<String, TokenError>)
    ensures
        match r {
            Ok(token) => signed_token(
                SUBJECT_CLAIM@,
                claims.sub@,
                EXPIRY_CLAIM@,
                claims.exp,
                secret@,
            ) == Some(token@) && token@.len() > 0,
            Err(e) => e == TokenError::SigningFailed && signed_token(
                SUBJECT_CLAIM@,
                claims.sub@,
                EXPIRY_CLAIM@,
                claims.exp,
                secret@,
            ) is None,
        },
{
    match sign_claims(
        SUBJECT_CLAIM,
        claims.sub.as_str(),
        EXPIRY_CLAIM,
        claims.exp,
        secret.expose(),
    ) {
        Some(token) => Ok(token),
        None => Err(TokenError::SigningFailed),
    }
}

/// `token` is a token issued to `subject` at some time.
pub open spec fn is_token_of(token: Seq<char>, subject: Seq<char>, secret: Seq<char>) -> bool {
    exists|now: i64| token_issued_at(subject, now, secret) == Ok::<Seq<char>, TokenError>(token)
}

/// `r` is what issuing a token to `subject` at the time `now` returns.
pub open spec fn issued_at(
    r: Result<String, TokenError>,
    subject: Seq<char>,
    now: i64,
    secret: Seq<char>,
) -> bool {
    match r {
        Ok(token) => token_issued_at(subject, now, secret) == Ok::<Seq<char>, TokenError>(token@)
            && token@.len() > 0,
        Err(e) => token_issued_at(subject, now, secret) == Err::<Seq<char>, TokenError>(e),
    }
}

/// Issues the token of `email` as of the time `now`: its subject is the
/// address and its expiry is `now` plus the token lifetime.
pub fn issue_token_at(email: &Email, now: i64, secret: &SigningSecret) -> (r: Result<
    String,
    TokenError,
>)
    ensures
        issued_at(r, email@, now, secret@),
{
    match expiry_at(now) {
        None => Err(TokenError::ExpiryOutOfRange),
        Some(exp) => {
            let claims = Claims { sub: email.to_str().to_owned(), exp };
            create_token(&claims, secret)
        },
    }
}

/// Issues the token of `email` as of the current time, whatever the clock
/// says that is.
pub fn generate_auth_token(email: &Email, secret: &SigningSecret) -> (r: Result<String, TokenError>)
    ensures
        exists|now: i64| issued_at(r, email@, now, secret@),
{
    let now = unix_now();
    let r = issue_token_at(email, now, secret);
    assert(issued_at(r, email@, now, secret@));
    r
}

/// The session cookie that carries `token`: the fixed name, every path,
/// hidden from scripts, sent with same-site requests and top-level
/// navigations, and kept for the token lifetime.
pub fn create_auth_cookie(token: String) -> (cookie: AuthCookie)
    ensures
        cookie.name@ == JWT_COOKIE_NAME@,
        cookie.value@ == token@,
        cookie.path@ == COOKIE_PATH@,
        cookie.http_only,
        cookie.same_site == SameSite::Lax,
        cookie.max_age_seconds == TOKEN_TTL_SECONDS,
{
    AuthCookie {
        name: JWT_COOKIE_NAME.to_owned(),
        value: token,
        path: COOKIE_PATH.to_owned(),
        http_only: true,
        same_site: SameSite::Lax,
        max_age_seconds: TOKEN_TTL_SECONDS,
    }
}

/// `cookie` is the session cookie that carries the token issued to
/// `subject` at the time `now`.
pub open spec fn is_cookie_issued_at(
    cookie: AuthCookie,
    subject: Seq<char>,
    now: i64,
    secret: Seq<char>,
) -> bool {
    &&& cookie.name@ == JWT_COOKIE_NAME@
    &&& cookie.path@ == COOKIE_PATH@
    &&& cookie.http_only
    &&& cookie.same_site == SameSite::Lax
    &&& cookie.max_age_seconds == TOKEN_TTL_SECONDS
    &&& cookie.value@.len() > 0
    &&& token_issued_at(subject, now, secret) == Ok::<Seq<char>, TokenError>(cookie.value@)
}

/// `r` is what asking for the session cookie of `subject` at the time
/// `now` returns: the cookie with the token issued at that time, or the
/// failure to issue one.
pub open spec fn cookie_issued_at(
    r: Result<AuthCookie, TokenError>,
    subject: Seq<char>,
    now: i64,
    secret: Seq<char>,
) -> bool {
    match r {
        Ok(cookie) => is_cookie_issued_at(cookie, subject, now, secret),
        Err(e) => token_issued_at(subject, now, secret) == Err::<Seq<char>, TokenError>(e),
    }
}

/// The session cookie of `email` as of the time `now`: it carries the
/// token issued at that time, and fails exactly where no token is issued.
pub fn generate_auth_cookie_at(email: &Email, now: i64, secret: &SigningSecret) -> (r: Result<
    AuthCookie,
    TokenError,
>)
    ensures
        cookie_issued_at(r, email@, now, secret@),
{
    match issue_token_at(email, now, secret) {
        Ok(token) => Ok(create_auth_cookie(token)),
        Err(e) => Err(e),
    }
}

/// A session cookie whose value is a fresh token for `email`, issued as
/// of the current time, whatever the clock says that is.
pub fn generate_auth_cookie(email: &Email, secret: &SigningSecret) -> (r: Result<
    AuthCookie,
    TokenError,
>)
    ensures
        exists|now: i64| cookie_issued_at(r, email@, now, secret@),
        r matches Ok(cookie) ==> is_token_of(cookie.value@, email@, secret@),
        r matches Err(e) ==> e == TokenError::ExpiryOutOfRange || e == TokenError::SigningFailed,
{
    let now = unix_now();
    let r = generate_auth_cookie_at(email, now, secret);
    assert(cookie_issued_at(r, email@, now, secret@));
    r
}

/// What the revocation check makes of the store's answer: a revoked token
/// is `Banned`, a store failure is `StoreFailure`.
pub fn check_revocation(lookup: Result<bool, BannedTokenStoreError>) -> (r: Result<(), TokenError>)
    ensures
        r == match lookup {
            Ok(true) => Err::<(), TokenError>(TokenError::Banned),
            Ok(false) => Ok::<(), TokenError>(()),
            Err(_) => Err::<(), TokenError>(TokenError::StoreFailure),
        },
{
    match lookup {
        Ok(true) => Err(TokenError::Banned),
        Ok(false) => Ok(()),
        Err(_) => Err(TokenError::StoreFailure),
    }
}

/// The claims that a decoded claim set stands for.
pub open spec fn claims_of(decoded: Result<(Option<String>, Option<u64>), DecodeFault>) -> Result<
    (Seq<char>, usize),
    TokenError,
> {
    match decoded {
        Ok((Some(sub), Some(exp))) => if exp <= usize::MAX {
            Ok((sub@, exp as usize))
        } else {
            Err(TokenError::Malformed)
        },
        Ok(_) => Err(TokenError::Malformed),
        Err(DecodeFault::Expired) => Err(TokenError::Expired),
        Err(DecodeFault::Rejected) => Err(TokenError::Malformed),
    }
}

/// What verification makes of the outcome of the signature check: the
/// claims where both are present and the expiry fits, `Expired` for an
/// expired token, `Malformed` otherwise.
pub fn claims_from_decoded(decoded: Result<(Option<String>, Option<u64>), DecodeFault>) -> (r:
    Result<Claims, TokenError>)
    ensures
        match r {
            Ok(claims) => claims_of(decoded) == Ok::<(Seq<char>, usize), TokenError>(
                (claims.sub@, claims.exp),
            ),
            Err(e) => claims_of(decoded) == Err::<(Seq<char>, usize), TokenError>(e),
        },
{
    match decoded {
        Ok((Some(sub), Some(exp))) => {
            if exp <= usize::MAX as u64 {
                Ok(Claims { sub, exp: exp as usize })
            } else {
                Err(TokenError::Malformed)
            }
        },
        Ok(_) => Err(TokenError::Malformed),
        Err(DecodeFault::Expired) => Err(TokenError::Expired),
        Err(DecodeFault::Rejected) => Err(TokenError::Malformed),
    }
}

/// Verifies a session token. The revoked-token store is asked first: a
/// revoked token is turned down whatever its signature and expiry say, and
/// a store out of reach ends the verification. Only a token that is not
/// revoked reaches the signature check.
pub fn validate_token<B: BannedTokenStore>(token: &str, banned: &B, secret: &SigningSecret) -> (r:
    Result<Claims, TokenError>)
    ensures
        r matches Err(e) ==> e != TokenError::ExpiryOutOfRange && e != TokenError::SigningFailed,
        banned.modelled() ==> match r {
            Ok(_) => banned.available() && !banned.tokens().contains(token@),
            Err(TokenError::Banned) => banned.available() && banned.tokens().contains(token@),
            Err(TokenError::StoreFailure) => !banned.available(),
            Err(_) => banned.available() && !banned.tokens().contains(token@),
        },
{
    match check_revocation(banned.contains_token(token)) {
        Err(e) => Err(e),
        Ok(()) => claims_from_decoded(
            decode_claims(token, secret.expose(), SUBJECT_CLAIM, EXPIRY_CLAIM),
        ),
    }
}

} // verus!
