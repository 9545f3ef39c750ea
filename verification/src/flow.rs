//! The login state machine: signup, login with or without a second factor,
//! verification of a challenge, logout, and the token query. Each operation
//! works on the stores through their abstractions and says, over their
//! models, what it returns and what it changes. Beside each operation stand
//! the functions that turn an answer of a store, of the mail transport or
//! of the token service into the reply: they say, for every answer, what
//! the operation returns.

use vstd::prelude::*;
use crate::challenge::{
    code_digits,
    is_random_uuid,
    is_valid_code,
    lemma_code_digits_valid,
    uuid_canonical_text,
    LoginAttemptId,
    TwoFACode,
    CODE_MAX,
    CODE_MIN,
};
use crate::credentials::{is_valid_email, is_valid_password, Email, Password, User};
use crate::errors::{AuthAPIError, BannedTokenStoreError, TwoFACodeStoreError, UserStoreError};
use crate::stores::{
    account_added,
    validation_of,
    Account,
    BannedTokenStore,
    EmailClient,
    Message,
    TwoFACodeStore,
    UserStore,
};
use crate::token::{
    generate_auth_cookie,
    generate_auth_cookie_at,
    is_cookie_issued_at,
    is_token_of,
    token_issued_at,
    unix_now,
    validate_token,
    AuthCookie,
    Claims,
    SameSite,
    SigningSecret,
    TokenError,
    COOKIE_PATH,
    JWT_COOKIE_NAME,
    TOKEN_TTL_SECONDS,
};

verus! {

/// Message of a successful signup.
pub const SIGNUP_MESSAGE: &'static str = "User created successfully!";

/// Message of a login that waits for the second factor.
pub const TWO_FA_MESSAGE: &'static str = "2FA required";

/// Subject of the message that carries the code.
pub const TWO_FA_SUBJECT: &'static str = "2FA Code";

/// Body of a signup request.
pub struct SignupRequest {
    pub email: String,
    pub password: String,
    pub requires_2fa: bool,
}

impl SignupRequest {
    pub fn new(email: String, password: String, requires_2fa: bool) -> (r: Self)
        ensures
            r.email == email,
            r.password == password,
            r.requires_2fa == requires_2fa,
    {
        SignupRequest { email, password, requires_2fa }
    }
}

/// Body of a successful signup.
#[derive(Debug, PartialEq, Eq)]
pub struct SignupResponse {
    pub message: String,
}

/// Body of a login request.
pub struct LoginRequest {
    pub email: String,
    pub password: String,
}

impl LoginRequest {
    pub fn new(email: String, password: String) -> (r: Self)
        ensures
            r.email == email,
            r.password == password,
    {
        LoginRequest { email, password }
    }
}

/// Body of a login that waits for the second factor.
#[derive(Debug)]
pub struct TwoFactorAuthResponse {
    pub message: String,
    pub login_attempt_id: String,
}

/// The two successful answers to a login.
#[derive(Debug)]
pub enum LoginResponse {
    RegularAuth,
    TwoFactorAuth(TwoFactorAuthResponse),
}

/// A successful login: the answer, and the session cookie where the
/// session has begun.
pub struct LoginSuccess {
    pub response: LoginResponse,
    pub cookie: Option<AuthCookie>,
}

/// Body of a request that answers a challenge.
#[derive(Debug)]
pub struct Verify2FARequest {
    pub email: String,
    pub login_attempt_id: String,
    pub two_fa_code: String,
}

impl Verify2FARequest {
    pub fn new(email: String, login_attempt_id: String, two_fa_code: String) -> (r: Self)
        ensures
            r.email == email,
            r.login_attempt_id == login_attempt_id,
            r.two_fa_code == two_fa_code,
    {
        Verify2FARequest { email, login_attempt_id, two_fa_code }
    }
}

/// Body of a token query.
#[derive(Debug)]
pub struct VerifyTokenRequest {
    pub token: String,
}

impl VerifyTokenRequest {
    pub fn new(token: String) -> (r: Self)
        ensures
            r.token == token,
    {
        VerifyTokenRequest { token }
    }
}

/// Body of a successful token query.
#[derive(Debug, PartialEq, Eq)]
pub struct VerifyTokenResponse {}

/// The status code that goes with a failure.
pub open spec fn error_status(e: AuthAPIError) -> u16 {
    match e {
        AuthAPIError::UserAlreadyExists => 409,
        AuthAPIError::InvalidCredentials => 400,
        AuthAPIError::IncorrectCredentials => 401,
        AuthAPIError::MissingToken => 400,
        AuthAPIError::InvalidToken => 401,
        AuthAPIError::UnexpectedError => 500,
    }
}

/// The message that goes with a failure.
pub open spec fn error_message(e: AuthAPIError) -> Seq<char> {
    match e {
        AuthAPIError::UserAlreadyExists => "User already exists"@,
        AuthAPIError::InvalidCredentials => "Invalid credentials"@,
        AuthAPIError::IncorrectCredentials => "Incorrect credentials"@,
        AuthAPIError::MissingToken => "Missing token"@,
        AuthAPIError::InvalidToken => "Invalid token"@,
        AuthAPIError::UnexpectedError => "Unexpected error"@,
    }
}

impl AuthAPIError {
    /// The status code that goes with this failure.
    pub fn status_code(&self) -> (code: u16)
        ensures
            code == error_status(*self),
    {
        match self {
            AuthAPIError::UserAlreadyExists => 409,
            AuthAPIError::InvalidCredentials => 400,
            AuthAPIError::IncorrectCredentials => 401,
            AuthAPIError::MissingToken => 400,
            AuthAPIError::InvalidToken => 401,
            AuthAPIError::UnexpectedError => 500,
        }
    }

    /// The message shown to the client. It never names a cause.
    pub fn message(&self) -> (text: &'static str)
        ensures
            text@ == error_message(*self),
    {
        match self {
            AuthAPIError::UserAlreadyExists => "User already exists",
            AuthAPIError::InvalidCredentials => "Invalid credentials",
            AuthAPIError::IncorrectCredentials => "Incorrect credentials",
            AuthAPIError::MissingToken => "Missing token",
            AuthAPIError::InvalidToken => "Invalid token",
            AuthAPIError::UnexpectedError => "Unexpected error",
        }
    }
}

impl LoginResponse {
    /// 200 where the session has begun, 206 where the second factor is
    /// awaited.
    pub fn status_code(&self) -> (code: u16)
        ensures
            code == (if self is RegularAuth {
                200u16
            } else {
                206u16
            }),
    {
        match self {
            LoginResponse::RegularAuth => 200,
            LoginResponse::TwoFactorAuth(_) => 206,
        }
    }
}

/// A cookie is shaped as a session cookie and carries a token.
pub open spec fn is_session_cookie(cookie: AuthCookie) -> bool {
    &&& cookie.name@ == JWT_COOKIE_NAME@
    &&& cookie.path@ == COOKIE_PATH@
    &&& cookie.http_only
    &&& cookie.same_site == SameSite::Lax
    &&& cookie.max_age_seconds == TOKEN_TTL_SECONDS
    &&& cookie.value@.len() > 0
}

/// A session cookie whose value is a token issued to `email`.
pub open spec fn is_session_cookie_of(cookie: AuthCookie, email: Seq<char>, secret: Seq<char>)
    -> bool {
    is_session_cookie(cookie) && is_token_of(cookie.value@, email, secret)
}

/// One of the three failures that every operation on credentials can end
/// with.
pub open spec fn is_credential_failure(e: AuthAPIError) -> bool {
    e == AuthAPIError::InvalidCredentials || e == AuthAPIError::IncorrectCredentials || e
        == AuthAPIError::UnexpectedError
}

/// One of the three failures that every operation on tokens can end with.
pub open spec fn is_token_failure(e: AuthAPIError) -> bool {
    e == AuthAPIError::MissingToken || e == AuthAPIError::InvalidToken || e
        == AuthAPIError::UnexpectedError
}

/// What a signup owes on a modelled store: malformed input is
/// `InvalidCredentials`, a store out of reach is `UnexpectedError`, a taken
/// address is `UserAlreadyExists`.
pub open spec fn signup_verdict(
    accounts: Map<Seq<char>, Account>,
    available: bool,
    email: Seq<char>,
    password: Seq<char>,
) -> Result<(), AuthAPIError> {
    if !is_valid_email(email) || !is_valid_password(password) {
        Err(AuthAPIError::InvalidCredentials)
    } else if !available {
        Err(AuthAPIError::UnexpectedError)
    } else if accounts.contains_key(email) {
        Err(AuthAPIError::UserAlreadyExists)
    } else {
        Ok(())
    }
}

/// The answer to a signup once the store has been asked to add the user: a
/// taken address is `UserAlreadyExists`, also where the store finds it
/// only at the insert; every other failure is `UnexpectedError`.
pub fn signup_reply(added: Result<(), UserStoreError>) -> (r: Result<SignupResponse, AuthAPIError>)
    ensures
        match added {
            Ok(()) => r matches Ok(response) && response.message@ == SIGNUP_MESSAGE@,
            Err(UserStoreError::UserAlreadyExists) => r == Err::<SignupResponse, AuthAPIError>(
                AuthAPIError::UserAlreadyExists,
            ),
            Err(_) => r == Err::<SignupResponse, AuthAPIError>(AuthAPIError::UnexpectedError),
        },
{
    match added {
        Ok(()) => Ok(SignupResponse { message: SIGNUP_MESSAGE.to_owned() }),
        Err(UserStoreError::UserAlreadyExists) => Err(AuthAPIError::UserAlreadyExists),
        Err(_) => Err(AuthAPIError::UnexpectedError),
    }
}

/// Registers a user. Malformed input is `InvalidCredentials`, whatever the
/// store holds, and the store is not asked. Otherwise the store is asked
/// once to add the user, and the result is what `signup_reply` makes of its
/// answer. On a modelled store that is the verdict of `signup_verdict`,
/// and only a successful signup changes the store.
pub fn signup<U: UserStore>(users: &mut U, request: SignupRequest) -> (r: Result<
    SignupResponse,
    AuthAPIError,
>)
    ensures
        final(users).modelled() == old(users).modelled(),
        r matches Ok(response) ==> response.message@ == SIGNUP_MESSAGE@,
        r matches Err(e) ==> e == AuthAPIError::InvalidCredentials || e
            == AuthAPIError::UserAlreadyExists || e == AuthAPIError::UnexpectedError,
        !(is_valid_email(request.email@) && is_valid_password(request.password@)) <==> (r is Err
            && r->Err_0 == AuthAPIError::InvalidCredentials),
        !(is_valid_email(request.email@) && is_valid_password(request.password@)) ==> final(users).accounts() == old(users).accounts(),
        old(users).modelled() ==> match r {
            Ok(_) => {
                &&& signup_verdict(
                    old(users).accounts(),
                    old(users).available(),
                    request.email@,
                    request.password@,
                ) is Ok
                &&& account_added(
                    old(users).accounts(),
                    final(users).accounts(),
                    request.email@,
                    request.password@,
                    request.requires_2fa,
                )
            },
            Err(e) => {
                &&& signup_verdict(
                    old(users).accounts(),
                    old(users).available(),
                    request.email@,
                    request.password@,
                ) == Err::<(), AuthAPIError>(e)
                &&& final(users).accounts() == old(users).accounts()
            },
        },
{
    let email = match Email::parse(request.email) {
        Ok(email) => email,
        Err(_) => return Err(AuthAPIError::InvalidCredentials),
    };
    let password = match Password::parse(request.password) {
        Ok(password) => password,
        Err(_) => return Err(AuthAPIError::InvalidCredentials),
    };
    let user = User::new(email, password, request.requires_2fa);
    signup_reply(users.add_user(user))
}

/// What credential validation owes at login on a modelled store: malformed
/// input is `InvalidCredentials`, a store out of reach is
/// `UnexpectedError`, an unknown address or a wrong password is
/// `IncorrectCredentials`.
pub open spec fn login_verdict(
    accounts: Map<Seq<char>, Account>,
    available: bool,
    email: Seq<char>,
    password: Seq<char>,
) -> Result<(), AuthAPIError> {
    if !is_valid_email(email) || !is_valid_password(password) {
        Err(AuthAPIError::InvalidCredentials)
    } else if !available {
        Err(AuthAPIError::UnexpectedError)
    } else if validation_of(accounts, email, password) is Ok {
        Ok(())
    } else {
        Err(AuthAPIError::IncorrectCredentials)
    }
}

/// What a login makes of the store's answer to the validation of the
/// credentials: a failure of the store is `UnexpectedError`, an unknown
/// address or a wrong password `IncorrectCredentials`.
pub fn credentials_reply(validated: Result<(), UserStoreError>) -> (r: Result<(), AuthAPIError>)
    ensures
        r == match validated {
            Ok(()) => Ok::<(), AuthAPIError>(()),
            Err(UserStoreError::UnexpectedError) => Err::<(), AuthAPIError>(
                AuthAPIError::UnexpectedError,
            ),
            Err(_) => Err::<(), AuthAPIError>(AuthAPIError::IncorrectCredentials),
        },
{
    match validated {
        Ok(()) => Ok(()),
        Err(UserStoreError::UnexpectedError) => Err(AuthAPIError::UnexpectedError),
        Err(_) => Err(AuthAPIError::IncorrectCredentials),
    }
}

/// What a login makes of the store's answer to the lookup of the user: the
/// user, `UnexpectedError` for a failure of the store, and
/// `IncorrectCredentials` for a user that is no longer there.
pub fn user_reply(found: Result<User, UserStoreError>) -> (r: Result<User, AuthAPIError>)
    ensures
        r == match found {
            Ok(user) => Ok::<User, AuthAPIError>(user),
            Err(UserStoreError::UnexpectedError) => Err::<User, AuthAPIError>(
                AuthAPIError::UnexpectedError,
            ),
            Err(_) => Err::<User, AuthAPIError>(AuthAPIError::IncorrectCredentials),
        },
{
    match found {
        Ok(user) => Ok(user),
        Err(UserStoreError::UnexpectedError) => Err(AuthAPIError::UnexpectedError),
        Err(_) => Err(AuthAPIError::IncorrectCredentials),
    }
}

/// The message that carries `code` to `email`.
pub open spec fn code_message(email: Seq<char>, code: Seq<char>) -> Message {
    Message { recipient: email, subject: TWO_FA_SUBJECT@, content: code }
}

/// `r` answers a login that waits for the second factor of the attempt
/// `id`: the message, the identifier, and no cookie.
pub open spec fn awaits_second_factor(r: Result<LoginSuccess, AuthAPIError>, id: Seq<char>) -> bool {
    match r {
        Ok(success) => {
            &&& success.cookie is None
            &&& success.response matches LoginResponse::TwoFactorAuth(body)
            &&& body.message@ == TWO_FA_MESSAGE@
            &&& body.login_attempt_id@ == id
        },
        Err(e) => e == AuthAPIError::UnexpectedError,
    }
}

/// The answer to a login once the code has been handed to the mail
/// transport: the attempt identifier where it was sent, `UnexpectedError`
/// where it was not. No cookie is attached either way.
pub fn challenge_reply(sent: Result<(), String>, login_attempt_id: &LoginAttemptId) -> (r: Result<
    LoginSuccess,
    AuthAPIError,
>)
    ensures
        awaits_second_factor(r, login_attempt_id@),
        r is Ok <==> sent is Ok,
{
    match sent {
        Ok(()) => Ok(
            LoginSuccess {
                response: LoginResponse::TwoFactorAuth(
                    TwoFactorAuthResponse {
                        message: TWO_FA_MESSAGE.to_owned(),
                        login_attempt_id: login_attempt_id.as_str().to_owned(),
                    },
                ),
                cookie: None,
            },
        ),
        Err(_) => Err(AuthAPIError::UnexpectedError),
    }
}

/// What a login does once the store has been asked to record the
/// challenge. A challenge that was not recorded ends the login with
/// `UnexpectedError` and nothing is sent. One that was recorded has its
/// code sent, once, to the address, and the answer is what
/// `challenge_reply` makes of the transport's answer.
pub fn notify_challenge<M: EmailClient>(
    added: Result<(), TwoFACodeStoreError>,
    email: &Email,
    login_attempt_id: &LoginAttemptId,
    code: &TwoFACode,
    mailer: &mut M,
) -> (r: Result<LoginSuccess, AuthAPIError>)
    ensures
        final(mailer).modelled() == old(mailer).modelled(),
        awaits_second_factor(r, login_attempt_id@),
        added is Err ==> r is Err && final(mailer).sent() == old(mailer).sent(),
        added is Ok && old(mailer).modelled() ==> if old(mailer).available() {
            r is Ok && final(mailer).sent() == old(mailer).sent().push(
                code_message(email@, code@),
            )
        } else {
            r is Err && final(mailer).sent() == old(mailer).sent()
        },
{
    match added {
        Ok(()) => {
            let sent = mailer.send_email(email, TWO_FA_SUBJECT, code.as_str());
            challenge_reply(sent, login_attempt_id)
        },
        Err(_) => Err(AuthAPIError::UnexpectedError),
    }
}

/// What opening the challenge `(id, code)` for `email` owes. The answer
/// carries the identifier or is `UnexpectedError`. A modelled store holds
/// the challenge afterwards where it is in reach and is unchanged where it
/// is not, and then nothing is sent. A modelled client was handed the code
/// exactly where the answer is a success, once, and nothing else.
pub open spec fn challenge_opened<C: TwoFACodeStore, M: EmailClient>(
    r: Result<LoginSuccess, AuthAPIError>,
    email: Seq<char>,
    id: Seq<char>,
    code: Seq<char>,
    codes_before: C,
    codes_after: C,
    mailer_before: M,
    mailer_after: M,
) -> bool {
    &&& awaits_second_factor(r, id)
    &&& codes_before.modelled() ==> codes_after.challenges() == (if codes_before.available() {
        codes_before.challenges().insert(email, (id, code))
    } else {
        codes_before.challenges()
    })
    &&& codes_before.modelled() && !codes_before.available() ==> r is Err && mailer_after.sent()
        == mailer_before.sent()
    &&& mailer_before.modelled() ==> mailer_after.sent() == (if r is Ok {
        mailer_before.sent().push(code_message(email, code))
    } else {
        mailer_before.sent()
    })
    &&& codes_before.modelled() && codes_before.available() && mailer_before.modelled() ==> (r is Ok
        <==> mailer_before.available())
}

/// Opens a challenge with a given identifier and code: asks the store to
/// record it, then hands the answer to `notify_challenge`. The challenge
/// is recorded before the code is sent, and a failure of either ends the
/// login with `UnexpectedError`.
pub fn begin_challenge<C: TwoFACodeStore, M: EmailClient>(
    email: &Email,
    login_attempt_id: LoginAttemptId,
    code: TwoFACode,
    codes: &mut C,
    mailer: &mut M,
) -> (r: Result<LoginSuccess, AuthAPIError>)
    ensures
        final(codes).modelled() == old(codes).modelled(),
        final(mailer).modelled() == old(mailer).modelled(),
        challenge_opened(
            r,
            email@,
            login_attempt_id@,
            code@,
            *old(codes),
            *final(codes),
            *old(mailer),
            *final(mailer),
        ),
{
    let added = codes.add_code(email.clone(), login_attempt_id.clone(), code.clone());
    notify_challenge(added, email, &login_attempt_id, &code, mailer)
}

/// `id` and the digits of `n` can be a fresh challenge: a random
/// identifier in canonical text, and a number from `CODE_MIN` to
/// `CODE_MAX`.
pub open spec fn is_fresh_challenge(id: Seq<char>, n: int) -> bool {
    &&& is_random_uuid(id)
    &&& uuid_canonical_text(id) == Some(id)
    &&& CODE_MIN <= n <= CODE_MAX
}

/// The second-factor branch of a login: opens a challenge with a fresh
/// random identifier and the digits of a fresh random number from
/// `CODE_MIN` to `CODE_MAX`.
pub fn handle_2fa<C: TwoFACodeStore, M: EmailClient>(email: &Email, codes: &mut C, mailer: &mut M)
    -> (r: Result<LoginSuccess, AuthAPIError>)
    ensures
        final(codes).modelled() == old(codes).modelled(),
        final(mailer).modelled() == old(mailer).modelled(),
        exists|id: Seq<char>, n: int|
            is_fresh_challenge(id, n) && #[trigger] challenge_opened(
                r,
                email@,
                id,
                code_digits(n),
                *old(codes),
                *final(codes),
                *old(mailer),
                *final(mailer),
            ),
        old(codes).modelled() && old(codes).available() ==> exists|n: int|
            CODE_MIN <= n <= CODE_MAX && final(codes).challenges().contains_key(email@) && final(codes).challenges()[email@].1 == #[trigger] code_digits(n),
{
    let login_attempt_id = LoginAttemptId::default();
    let code = TwoFACode::default();
    let ghost id = login_attempt_id@;
    let ghost n = choose|n: int| CODE_MIN <= n <= CODE_MAX && code@ == code_digits(n);
    let r = begin_challenge(email, login_attempt_id, code, codes, mailer);
    proof {
        assert(is_fresh_challenge(id, n));
        assert(challenge_opened(
            r,
            email@,
            id,
            code_digits(n),
            *old(codes),
            *codes,
            *old(mailer),
            *mailer,
        ));
    }
    r
}

/// The answer to a login without second factor once the session token has
/// been asked for: the session cookie where it was issued,
/// `UnexpectedError` where it was not.
pub fn session_reply(issued: Result<AuthCookie, TokenError>) -> (r: Result<
    LoginSuccess,
    AuthAPIError,
>)
    ensures
        match issued {
            Ok(cookie) => {
                &&& r matches Ok(success)
                &&& success.response is RegularAuth
                &&& success.cookie == Some(cookie)
            },
            Err(_) => r matches Err(e) && e == AuthAPIError::UnexpectedError,
        },
{
    match issued {
        Ok(cookie) => Ok(LoginSuccess { response: LoginResponse::RegularAuth, cookie: Some(cookie) }),
        Err(_) => Err(AuthAPIError::UnexpectedError),
    }
}

/// The branch of a login without second factor, as of the time `now`: the
/// session begins with the cookie that carries the token issued to the
/// address at that time, and fails with `UnexpectedError` exactly where no
/// token is issued.
pub fn handle_no_2fa_at(email: &Email, now: i64, secret: &SigningSecret) -> (r: Result<
    LoginSuccess,
    AuthAPIError,
>)
    ensures
        r is Ok <==> token_issued_at(email@, now, secret@) is Ok,
        match r {
            Ok(success) => {
                &&& success.response is RegularAuth
                &&& success.cookie matches Some(cookie)
                &&& is_cookie_issued_at(cookie, email@, now, secret@)
            },
            Err(e) => e == AuthAPIError::UnexpectedError,
        },
{
    session_reply(generate_auth_cookie_at(email, now, secret))
}

/// The branch of a login without second factor: the session begins, with
/// a cookie that carries a token issued to the address.
pub fn handle_no_2fa(email: &Email, secret: &SigningSecret) -> (r: Result<
    LoginSuccess,
    AuthAPIError,
>)
    ensures
        match r {
            Ok(success) => {
                &&& success.response is RegularAuth
                &&& success.cookie matches Some(cookie)
                &&& is_session_cookie_of(cookie, email@, secret@)
            },
            Err(e) => e == AuthAPIError::UnexpectedError,
        },
{
    session_reply(generate_auth_cookie(email, secret))
}

/// What a login with the given credentials owes where the clock says
/// `now`.
///
/// Malformed input is `InvalidCredentials`, whatever the stores hold. A
/// success without second factor carries the session cookie issued to the
/// address at `now` and leaves the challenge store and the mail client as
/// they were; one with second factor has opened a fresh challenge. A
/// login that ends with `InvalidCredentials` or `IncorrectCredentials` has
/// touched neither the challenge store nor the mail client, whatever the
/// stores are.
///
/// On a modelled user store the failures follow `login_verdict`, and
/// `UnexpectedError` is left to a store out of reach, to a token that is
/// not issued and to a challenge that could not be recorded or sent. Where
/// the credentials are valid, a user without second factor is logged in
/// exactly where a token is issued at `now`; for a user with second
/// factor the challenge store and the mail client change as
/// `challenge_opened` says. In every other case both are left as they
/// were.
pub open spec fn login_outcome<U: UserStore, C: TwoFACodeStore, M: EmailClient>(
    r: Result<LoginSuccess, AuthAPIError>,
    now: i64,
    users: U,
    codes_before: C,
    codes_after: C,
    mailer_before: M,
    mailer_after: M,
    secret: Seq<char>,
    email: Seq<char>,
    password: Seq<char>,
) -> bool {
    let verdict = login_verdict(users.accounts(), users.available(), email, password);
    let opened = exists|id: Seq<char>, n: int|
        is_fresh_challenge(id, n) && #[trigger] challenge_opened(
            r,
            email,
            id,
            code_digits(n),
            codes_before,
            codes_after,
            mailer_before,
            mailer_after,
        );
    let untouched = codes_after.challenges() == codes_before.challenges() && mailer_after.sent()
        == mailer_before.sent();
    &&& !(is_valid_email(email) && is_valid_password(password)) <==> (r is Err && r->Err_0
        == AuthAPIError::InvalidCredentials)
    &&& match r {
        Ok(success) => match success.response {
            LoginResponse::RegularAuth => {
                &&& success.cookie matches Some(cookie)
                &&& is_cookie_issued_at(cookie, email, now, secret)
                &&& untouched
            },
            LoginResponse::TwoFactorAuth(_) => opened,
        },
        Err(e) => is_credential_failure(e),
    }
    &&& (r is Err && r->Err_0 != AuthAPIError::UnexpectedError) ==> untouched
    &&& users.modelled() ==> match r {
        Ok(success) => verdict is Ok && (success.response is TwoFactorAuth
            <==> users.accounts()[email].requires_2fa),
        Err(AuthAPIError::UnexpectedError) => verdict is Ok || verdict == Err::<(), AuthAPIError>(
            AuthAPIError::UnexpectedError,
        ),
        Err(e) => verdict == Err::<(), AuthAPIError>(e),
    }
    &&& users.modelled() ==> if verdict is Ok && users.accounts()[email].requires_2fa {
        opened
    } else {
        untouched
    }
    &&& users.modelled() && verdict is Ok && !users.accounts()[email].requires_2fa ==> (r is Ok
        <==> token_issued_at(email, now, secret) is Ok)
}

/// Logs a user in as of the time `now`. Credentials are parsed, then
/// validated against the user store and the answer goes through
/// `credentials_reply`; the user is looked up and the answer goes through
/// `user_reply`. What follows depends on whether the user asks for a
/// second factor. Without it the session begins and the cookie is
/// attached. With it a fresh challenge is recorded and its code sent, and
/// the answer carries the attempt identifier and no cookie.
pub fn login_at<U: UserStore, C: TwoFACodeStore, M: EmailClient>(
    users: &U,
    codes: &mut C,
    mailer: &mut M,
    secret: &SigningSecret,
    now: i64,
    request: LoginRequest,
) -> (r: Result<LoginSuccess, AuthAPIError>)
    ensures
        final(codes).modelled() == old(codes).modelled(),
        final(mailer).modelled() == old(mailer).modelled(),
        login_outcome(
            r,
            now,
            *users,
            *old(codes),
            *final(codes),
            *old(mailer),
            *final(mailer),
            secret@,
            request.email@,
            request.password@,
        ),
{
    let email = match Email::parse(request.email) {
        Ok(email) => email,
        Err(_) => return Err(AuthAPIError::InvalidCredentials),
    };
    let password = match Password::parse(request.password) {
        Ok(password) => password,
        Err(_) => return Err(AuthAPIError::InvalidCredentials),
    };
    match credentials_reply(users.validate_user(&email, &password)) {
        Ok(()) => {},
        Err(e) => return Err(e),
    }
    let user = match user_reply(users.get_user(&email)) {
        Ok(user) => user,
        Err(e) => return Err(e),
    };
    if user.requires_2fa {
        handle_2fa(&email, codes, mailer)
    } else {
        handle_no_2fa_at(&email, now, secret)
    }
}

/// Logs a user in as of the current time, whatever the clock says that
/// is: the result is that of `login_at` for that time.
pub fn login<U: UserStore, C: TwoFACodeStore, M: EmailClient>(
    users: &U,
    codes: &mut C,
    mailer: &mut M,
    secret: &SigningSecret,
    request: LoginRequest,
) -> (r: Result<LoginSuccess, AuthAPIError>)
    ensures
        final(codes).modelled() == old(codes).modelled(),
        final(mailer).modelled() == old(mailer).modelled(),
        exists|now: i64| #[trigger]
            login_outcome(
                r,
                now,
                *users,
                *old(codes),
                *final(codes),
                *old(mailer),
                *final(mailer),
                secret@,
                request.email@,
                request.password@,
            ),
{
    let now = unix_now();
    let r = login_at(users, codes, mailer, secret, now, request);
    assert(login_outcome(
        r,
        now,
        *users,
        *old(codes),
        *codes,
        *old(mailer),
        *mailer,
        secret@,
        request.email@,
        request.password@,
    ));
    r
}

/// The challenge pending for `email`, if there is one.
pub open spec fn pending_challenge(
    challenges: Map<Seq<char>, (Seq<char>, Seq<char>)>,
    email: Seq<char>,
) -> Option<(Seq<char>, Seq<char>)> {
    if challenges.contains_key(email) {
        Some(challenges[email])
    } else {
        None
    }
}

/// What the comparison of an answer with the pending challenge owes: no
/// challenge is `IncorrectCredentials`; another attempt identifier is
/// `InvalidCredentials`; the right identifier with a wrong code is
/// `IncorrectCredentials`.
pub open spec fn challenge_verdict(
    stored: Option<(Seq<char>, Seq<char>)>,
    id: Seq<char>,
    code: Seq<char>,
) -> Result<(), AuthAPIError> {
    match stored {
        None => Err(AuthAPIError::IncorrectCredentials),
        Some((stored_id, stored_code)) => if stored_id != id {
            Err(AuthAPIError::InvalidCredentials)
        } else if stored_code != code {
            Err(AuthAPIError::IncorrectCredentials)
        } else {
            Ok(())
        },
    }
}

/// Whether the three texts of an answer to a challenge are well formed.
pub open spec fn is_valid_answer(email: Seq<char>, login_attempt_id: Seq<char>, code: Seq<char>)
    -> bool {
    is_valid_email(email) && is_valid_code(code) && uuid_canonical_text(login_attempt_id) is Some
}

/// What the verification of a challenge owes on a modelled store, from the
/// text of the request: malformed input is `InvalidCredentials`, a store
/// out of reach is `UnexpectedError`; otherwise the comparison decides.
pub open spec fn verify_2fa_verdict(
    challenges: Map<Seq<char>, (Seq<char>, Seq<char>)>,
    available: bool,
    email: Seq<char>,
    login_attempt_id: Seq<char>,
    code: Seq<char>,
) -> Result<(), AuthAPIError> {
    if !is_valid_answer(email, login_attempt_id, code) {
        Err(AuthAPIError::InvalidCredentials)
    } else if !available {
        Err(AuthAPIError::UnexpectedError)
    } else {
        challenge_verdict(
            pending_challenge(challenges, email),
            uuid_canonical_text(login_attempt_id)->0,
            code,
        )
    }
}

/// Compares an answer with what the challenge store returned.
pub fn check_challenge(
    stored: Result<(LoginAttemptId, TwoFACode), TwoFACodeStoreError>,
    login_attempt_id: &LoginAttemptId,
    code: &TwoFACode,
) -> (r: Result<(), AuthAPIError>)
    ensures
        r == match stored {
            Ok((stored_id, stored_code)) => challenge_verdict(
                Some((stored_id@, stored_code@)),
                login_attempt_id@,
                code@,
            ),
            Err(TwoFACodeStoreError::LoginAttemptIdNotFound) => Err::<(), AuthAPIError>(
                AuthAPIError::IncorrectCredentials,
            ),
            Err(TwoFACodeStoreError::UnexpectedError) => Err::<(), AuthAPIError>(
                AuthAPIError::UnexpectedError,
            ),
        },
{
    match stored {
        Ok((stored_id, stored_code)) => {
            if stored_id != *login_attempt_id {
                Err(AuthAPIError::InvalidCredentials)
            } else if stored_code != *code {
                Err(AuthAPIError::IncorrectCredentials)
            } else {
                Ok(())
            }
        },
        Err(TwoFACodeStoreError::LoginAttemptIdNotFound) => Err(AuthAPIError::IncorrectCredentials),
        Err(TwoFACodeStoreError::UnexpectedError) => Err(AuthAPIError::UnexpectedError),
    }
}

/// What the verification makes of the store's answer to the removal of
/// the answered challenge: a challenge that is no longer pending was
/// answered by someone else in the meantime, which is
/// `IncorrectCredentials`; a failure of the store is `UnexpectedError`.
pub fn removal_reply(removed: Result<(), TwoFACodeStoreError>) -> (r: Result<(), AuthAPIError>)
    ensures
        r == match removed {
            Ok(()) => Ok::<(), AuthAPIError>(()),
            Err(TwoFACodeStoreError::LoginAttemptIdNotFound) => Err::<(), AuthAPIError>(
                AuthAPIError::IncorrectCredentials,
            ),
            Err(TwoFACodeStoreError::UnexpectedError) => Err::<(), AuthAPIError>(
                AuthAPIError::UnexpectedError,
            ),
        },
{
    match removed {
        Ok(()) => Ok(()),
        Err(TwoFACodeStoreError::LoginAttemptIdNotFound) => Err(AuthAPIError::IncorrectCredentials),
        Err(TwoFACodeStoreError::UnexpectedError) => Err(AuthAPIError::UnexpectedError),
    }
}

/// The answer to a verified challenge once the session token has been
/// asked for: the session cookie where it was issued, `UnexpectedError`
/// where it was not.
pub fn verified_reply(issued: Result<AuthCookie, TokenError>) -> (r: Result<
    AuthCookie,
    AuthAPIError,
>)
    ensures
        match issued {
            Ok(cookie) => r == Ok::<AuthCookie, AuthAPIError>(cookie),
            Err(_) => r == Err::<AuthCookie, AuthAPIError>(AuthAPIError::UnexpectedError),
        },
{
    match issued {
        Ok(cookie) => Ok(cookie),
        Err(_) => Err(AuthAPIError::UnexpectedError),
    }
}

/// What the verification of an answer to a challenge owes where the clock
/// says `now`.
///
/// Malformed input is `InvalidCredentials`, whatever the store holds, and
/// the store is left as it was. A success carries the session cookie
/// issued to the address at `now`.
///
/// On a modelled store the failures follow `verify_2fa_verdict`. An answer
/// that names the pending attempt and its code removes the challenge, so
/// that it cannot be answered again, and succeeds exactly where a token is
/// issued at `now`; where none is, the result is `UnexpectedError`. Every
/// other outcome leaves the store as it was.
pub open spec fn verify_2fa_outcome<C: TwoFACodeStore>(
    r: Result<AuthCookie, AuthAPIError>,
    now: i64,
    codes_before: C,
    codes_after: C,
    secret: Seq<char>,
    email: Seq<char>,
    login_attempt_id: Seq<char>,
    code: Seq<char>,
) -> bool {
    let verdict = verify_2fa_verdict(
        codes_before.challenges(),
        codes_before.available(),
        email,
        login_attempt_id,
        code,
    );
    &&& match r {
        Ok(cookie) => is_cookie_issued_at(cookie, email, now, secret),
        Err(e) => is_credential_failure(e),
    }
    &&& !is_valid_answer(email, login_attempt_id, code) ==> (r is Err && r->Err_0
        == AuthAPIError::InvalidCredentials) && codes_after.challenges()
        == codes_before.challenges()
    &&& codes_before.modelled() ==> match verdict {
        Ok(()) => {
            &&& codes_after.challenges() == codes_before.challenges().remove(email)
            &&& r is Ok <==> token_issued_at(email, now, secret) is Ok
            &&& r matches Err(e) ==> e == AuthAPIError::UnexpectedError
        },
        Err(refusal) => {
            &&& r == Err::<AuthCookie, AuthAPIError>(refusal)
            &&& codes_after.challenges() == codes_before.challenges()
        },
    }
}

/// Completes a login with the answer to a challenge, as of the time `now`.
/// The answer is parsed and compared with what the store holds, through
/// `check_challenge`. A challenge that was answered is removed before the
/// session begins, and the store's answer goes through `removal_reply`.
/// Then the session cookie is issued, through `verified_reply`.
pub fn verify_2fa_at<C: TwoFACodeStore>(
    codes: &mut C,
    secret: &SigningSecret,
    now: i64,
    request: Verify2FARequest,
) -> (r: Result<AuthCookie, AuthAPIError>)
    ensures
        final(codes).modelled() == old(codes).modelled(),
        verify_2fa_outcome(
            r,
            now,
            *old(codes),
            *final(codes),
            secret@,
            request.email@,
            request.login_attempt_id@,
            request.two_fa_code@,
        ),
{
    let email = match Email::parse(request.email) {
        Ok(email) => email,
        Err(_) => return Err(AuthAPIError::InvalidCredentials),
    };
    let login_attempt_id = match LoginAttemptId::parse(request.login_attempt_id) {
        Ok(id) => id,
        Err(_) => return Err(AuthAPIError::InvalidCredentials),
    };
    let code = match TwoFACode::parse(request.two_fa_code) {
        Ok(code) => code,
        Err(_) => return Err(AuthAPIError::InvalidCredentials),
    };
    match check_challenge(codes.get_code(&email), &login_attempt_id, &code) {
        Ok(()) => {},
        Err(e) => return Err(e),
    }
    match removal_reply(codes.remove_code(&email)) {
        Ok(()) => {},
        Err(e) => return Err(e),
    }
    verified_reply(generate_auth_cookie_at(&email, now, secret))
}

/// Completes a login with the answer to a challenge as of the current
/// time, whatever the clock says that is: the result is that of
/// `verify_2fa_at` for that time.
pub fn verify_2fa<C: TwoFACodeStore>(
    codes: &mut C,
    secret: &SigningSecret,
    request: Verify2FARequest,
) -> (r: Result<AuthCookie, AuthAPIError>)
    ensures
        final(codes).modelled() == old(codes).modelled(),
        exists|now: i64| #[trigger]
            verify_2fa_outcome(
                r,
                now,
                *old(codes),
                *final(codes),
                secret@,
                request.email@,
                request.login_attempt_id@,
                request.two_fa_code@,
            ),
{
    let now = unix_now();
    let r = verify_2fa_at(codes, secret, now, request);
    assert(verify_2fa_outcome(
        r,
        now,
        *old(codes),
        *codes,
        secret@,
        request.email@,
        request.login_attempt_id@,
        request.two_fa_code@,
    ));
    r
}

/// The text of an optional token.
pub open spec fn token_text(token: Option<String>) -> Option<Seq<char>> {
    match token {
        Some(text) => Some(text@),
        None => None,
    }
}

/// What a logout owes on a modelled store, before any signature is
/// checked: no cookie is `MissingToken`, a store out of reach is
/// `UnexpectedError`, a revoked token is `InvalidToken`.
pub open spec fn logout_refusal(
    tokens: Set<Seq<char>>,
    available: bool,
    cookie: Option<Seq<char>>,
) -> Option<AuthAPIError> {
    match cookie {
        None => Some(AuthAPIError::MissingToken),
        Some(token) => if !available {
            Some(AuthAPIError::UnexpectedError)
        } else if tokens.contains(token) {
            Some(AuthAPIError::InvalidToken)
        } else {
            None
        },
    }
}

/// What a logout makes of the store's answer to the revocation: a token
/// that the store holds already is revoked all the same; every other
/// failure is `UnexpectedError`, so that a logout never reports success
/// for a token that was not revoked.
pub fn revocation_reply(added: Result<(), BannedTokenStoreError>) -> (r: Result<(), AuthAPIError>)
    ensures
        r == match added {
            Ok(()) => Ok::<(), AuthAPIError>(()),
            Err(BannedTokenStoreError::TokenAlreadyExists) => Ok::<(), AuthAPIError>(()),
            Err(_) => Err::<(), AuthAPIError>(AuthAPIError::UnexpectedError),
        },
{
    match added {
        Ok(()) => Ok(()),
        Err(BannedTokenStoreError::TokenAlreadyExists) => Ok(()),
        Err(_) => Err(AuthAPIError::UnexpectedError),
    }
}

/// What a logout does once the token of the cookie has been verified. A
/// token that did not verify is `InvalidToken`, or `UnexpectedError` where
/// the store could not be asked, and the store is left alone. A token
/// that verified is revoked, and the answer is what `revocation_reply`
/// makes of the store's answer.
pub fn revoke_validated<B: BannedTokenStore>(
    validated: Result<Claims, TokenError>,
    banned: &mut B,
    token: String,
) -> (r: Result<(), AuthAPIError>)
    ensures
        final(banned).modelled() == old(banned).modelled(),
        match validated {
            Err(TokenError::StoreFailure) => r == Err::<(), AuthAPIError>(
                AuthAPIError::UnexpectedError,
            ) && final(banned).tokens() == old(banned).tokens(),
            Err(_) => r == Err::<(), AuthAPIError>(AuthAPIError::InvalidToken) && final(banned).tokens() == old(banned).tokens(),
            Ok(_) => {
                &&& r is Ok || r == Err::<(), AuthAPIError>(AuthAPIError::UnexpectedError)
                &&& old(banned).modelled() ==> if old(banned).available() {
                    r is Ok && final(banned).tokens() == old(banned).tokens().insert(token@)
                } else {
                    r is Err && final(banned).tokens() == old(banned).tokens()
                }
            },
        },
{
    match validated {
        Ok(_) => {
            let ghost text = token@;
            let added = banned.add_token(token);
            proof {
                if old(banned).modelled() && old(banned).available() {
                    assert(banned.tokens() =~= old(banned).tokens().insert(text));
                }
            }
            revocation_reply(added)
        },
        Err(TokenError::StoreFailure) => Err(AuthAPIError::UnexpectedError),
        Err(_) => Err(AuthAPIError::InvalidToken),
    }
}

/// Ends a session. Without a cookie the result is `MissingToken`.
/// Otherwise the token of the cookie is verified, and the result is what
/// `revoke_validated` makes of the outcome: a token that verifies is
/// revoked, and the caller strips the cookie on success. On a modelled
/// store a successful logout adds the token to the revoked tokens, and
/// nothing else changes the store.
pub fn logout<B: BannedTokenStore>(
    banned: &mut B,
    secret: &SigningSecret,
    cookie_token: Option<String>,
) -> (r: Result<(), AuthAPIError>)
    ensures
        final(banned).modelled() == old(banned).modelled(),
        cookie_token is None <==> (r is Err && r->Err_0 == AuthAPIError::MissingToken),
        r matches Err(e) ==> is_token_failure(e),
        old(banned).modelled() ==> match r {
            Ok(()) => {
                &&& logout_refusal(
                    old(banned).tokens(),
                    old(banned).available(),
                    token_text(cookie_token),
                ) is None
                &&& cookie_token matches Some(token)
                &&& final(banned).tokens() == old(banned).tokens().insert(token@)
            },
            Err(e) => {
                &&& final(banned).tokens() == old(banned).tokens()
                &&& match logout_refusal(
                    old(banned).tokens(),
                    old(banned).available(),
                    token_text(cookie_token),
                ) {
                    Some(refusal) => e == refusal,
                    None => e == AuthAPIError::InvalidToken,
                }
            },
        },
{
    let token = match cookie_token {
        Some(token) => token,
        None => return Err(AuthAPIError::MissingToken),
    };
    let validated = validate_token(token.as_str(), &*banned, secret);
    revoke_validated(validated, banned, token)
}

/// What a token query owes on a modelled store, before any signature is
/// checked: a store out of reach is `UnexpectedError`, a revoked token is
/// `InvalidToken`, a missing cookie is `MissingToken`, and a cookie that
/// carries another token than the one asked about is `InvalidToken`.
pub open spec fn token_query_refusal(
    tokens: Set<Seq<char>>,
    available: bool,
    cookie: Option<Seq<char>>,
    asked: Seq<char>,
) -> Option<AuthAPIError> {
    if !available {
        Some(AuthAPIError::UnexpectedError)
    } else if tokens.contains(asked) {
        Some(AuthAPIError::InvalidToken)
    } else {
        match cookie {
            None => Some(AuthAPIError::MissingToken),
            Some(token) => if token != asked {
                Some(AuthAPIError::InvalidToken)
            } else {
                None
            },
        }
    }
}

/// What a token query makes of the store's answer to the lookup of the
/// token asked about: a token that is found is revoked, which is
/// `InvalidToken`; one that is not found goes on; a failure of the store
/// is `UnexpectedError`.
pub fn lookup_reply(found: Result<String, BannedTokenStoreError>) -> (r: Result<(), AuthAPIError>)
    ensures
        r == match found {
            Ok(_) => Err::<(), AuthAPIError>(AuthAPIError::InvalidToken),
            Err(BannedTokenStoreError::TokenNotFound) => Ok::<(), AuthAPIError>(()),
            Err(_) => Err::<(), AuthAPIError>(AuthAPIError::UnexpectedError),
        },
{
    match found {
        Ok(_) => Err(AuthAPIError::InvalidToken),
        Err(BannedTokenStoreError::TokenNotFound) => Ok(()),
        Err(_) => Err(AuthAPIError::UnexpectedError),
    }
}

/// The answer to a token query once the token carried by the cookie has
/// been verified: success exactly where it verified and is the token asked
/// about; `UnexpectedError` where the store could not be asked;
/// `InvalidToken` otherwise.
pub fn token_query_reply(validated: Result<Claims, TokenError>, carried: &str, asked: &str) -> (r:
    Result<VerifyTokenResponse, AuthAPIError>)
    ensures
        r == match validated {
            Ok(_) => if carried@ == asked@ {
                Ok::<VerifyTokenResponse, AuthAPIError>(VerifyTokenResponse {  })
            } else {
                Err::<VerifyTokenResponse, AuthAPIError>(AuthAPIError::InvalidToken)
            },
            Err(TokenError::StoreFailure) => Err::<VerifyTokenResponse, AuthAPIError>(
                AuthAPIError::UnexpectedError,
            ),
            Err(_) => Err::<VerifyTokenResponse, AuthAPIError>(AuthAPIError::InvalidToken),
        },
{
    match validated {
        Ok(_) => {
            if carried.to_owned() == asked.to_owned() {
                Ok(VerifyTokenResponse {  })
            } else {
                Err(AuthAPIError::InvalidToken)
            }
        },
        Err(TokenError::StoreFailure) => Err(AuthAPIError::UnexpectedError),
        Err(_) => Err(AuthAPIError::InvalidToken),
    }
}

/// Answers whether a token is a valid session token. The store is asked
/// first about the token of the request, and the answer goes through
/// `lookup_reply`. Then the cookie must be there, else the result is
/// `MissingToken`. Then the token of the cookie is verified, and the
/// result is what `token_query_reply` makes of the outcome. The stores are
/// not changed. On a modelled store every refusal of `token_query_refusal`
/// is returned as it stands, before any signature is looked at.
pub fn verify_token<B: BannedTokenStore>(
    banned: &B,
    secret: &SigningSecret,
    cookie_token: Option<String>,
    request: VerifyTokenRequest,
) -> (r: Result<VerifyTokenResponse, AuthAPIError>)
    ensures
        r matches Err(e) ==> is_token_failure(e),
        r is Err && r->Err_0 == AuthAPIError::MissingToken ==> cookie_token is None,
        r is Ok ==> token_text(cookie_token) == Some(request.token@),
        banned.modelled() ==> match r {
            Ok(_) => token_query_refusal(
                banned.tokens(),
                banned.available(),
                token_text(cookie_token),
                request.token@,
            ) is None,
            Err(e) => match token_query_refusal(
                banned.tokens(),
                banned.available(),
                token_text(cookie_token),
                request.token@,
            ) {
                Some(refusal) => e == refusal,
                None => e == AuthAPIError::InvalidToken,
            },
        },
{
    match lookup_reply(banned.get_token(request.token.as_str())) {
        Ok(()) => {},
        Err(e) => return Err(e),
    }
    let token = match cookie_token {
        Some(token) => token,
        None => return Err(AuthAPIError::MissingToken),
    };
    let validated = validate_token(token.as_str(), banned, secret);
    token_query_reply(validated, token.as_str(), request.token.as_str())
}

/// After a successful signup, a second signup with the same address is
/// turned down with `UserAlreadyExists`, whatever valid password it brings.
pub proof fn lemma_second_signup_rejected(
    before: Map<Seq<char>, Account>,
    after: Map<Seq<char>, Account>,
    email: Seq<char>,
    password: Seq<char>,
    requires_2fa: bool,
    second_password: Seq<char>,
)
    requires
        signup_verdict(before, true, email, password) is Ok,
        account_added(before, after, email, password, requires_2fa),
        is_valid_password(second_password),
    ensures
        signup_verdict(after, true, email, second_password) == Err::<(), AuthAPIError>(
            AuthAPIError::UserAlreadyExists,
        ),
        error_status(AuthAPIError::UserAlreadyExists) == 409,
{
}

/// After a successful signup, a login with the same credentials passes
/// credential validation.
pub proof fn lemma_login_after_signup(
    before: Map<Seq<char>, Account>,
    after: Map<Seq<char>, Account>,
    email: Seq<char>,
    password: Seq<char>,
    requires_2fa: bool,
)
    requires
        signup_verdict(before, true, email, password) is Ok,
        account_added(before, after, email, password, requires_2fa),
    ensures
        login_verdict(after, true, email, password) is Ok,
        after[email].requires_2fa == requires_2fa,
{
}

/// The attempt identifier that a login with second factor answers with is
/// the one pending in the challenge store for that address, and answering
/// with it and the pending code passes verification.
pub proof fn lemma_opened_challenge_accepted(
    before: Map<Seq<char>, (Seq<char>, Seq<char>)>,
    email: Seq<char>,
    id: Seq<char>,
    n: int,
)
    requires
        is_valid_email(email),
        is_fresh_challenge(id, n),
    ensures
        pending_challenge(before.insert(email, (id, code_digits(n))), email) == Some(
            (id, code_digits(n)),
        ),
        verify_2fa_verdict(before.insert(email, (id, code_digits(n))), true, email, id, code_digits(n))
            is Ok,
{
    lemma_code_digits_valid(n);
}

/// A challenge can be answered once: after a successful verification the
/// same answer, and any other for that address, is turned down, with
/// `IncorrectCredentials` where it is well formed.
pub proof fn lemma_challenge_single_use(
    challenges: Map<Seq<char>, (Seq<char>, Seq<char>)>,
    email: Seq<char>,
    login_attempt_id: Seq<char>,
    code: Seq<char>,
)
    requires
        verify_2fa_verdict(challenges, true, email, login_attempt_id, code) is Ok,
    ensures
        verify_2fa_verdict(challenges.remove(email), true, email, login_attempt_id, code) == Err::<
            (),
            AuthAPIError,
        >(AuthAPIError::IncorrectCredentials),
        forall|other_id: Seq<char>, other_code: Seq<char>|
            verify_2fa_verdict(challenges.remove(email), true, email, other_id, other_code) is Err,
        error_status(AuthAPIError::IncorrectCredentials) == 401,
{
}

/// A wrong attempt identifier and a wrong code are told apart: against a
/// pending challenge the first is `InvalidCredentials`, the second
/// `IncorrectCredentials`.
pub proof fn lemma_mismatch_classes(
    stored_id: Seq<char>,
    stored_code: Seq<char>,
    id: Seq<char>,
    code: Seq<char>,
)
    ensures
        stored_id != id ==> challenge_verdict(Some((stored_id, stored_code)), id, code) == Err::<
            (),
            AuthAPIError,
        >(AuthAPIError::InvalidCredentials),
        stored_id == id && stored_code != code ==> challenge_verdict(
            Some((stored_id, stored_code)),
            id,
            code,
        ) == Err::<(), AuthAPIError>(AuthAPIError::IncorrectCredentials),
        stored_id == id && stored_code == code ==> challenge_verdict(
            Some((stored_id, stored_code)),
            id,
            code,
        ) is Ok,
{
}

/// After a logout the token of the session is turned down by the token
/// query with `InvalidToken`, whatever cookie the query brings and whether
/// or not the token has expired; and a second logout with the same token,
/// or without a cookie, is a client error.
pub proof fn lemma_revoked_token_refused(
    tokens: Set<Seq<char>>,
    token: Seq<char>,
    cookie: Option<Seq<char>>,
)
    ensures
        token_query_refusal(tokens.insert(token), true, cookie, token) == Some(
            AuthAPIError::InvalidToken,
        ),
        logout_refusal(tokens.insert(token), true, Some(token)) == Some(AuthAPIError::InvalidToken),
        logout_refusal(tokens.insert(token), true, None) == Some(AuthAPIError::MissingToken),
        error_status(AuthAPIError::InvalidToken) == 401,
        error_status(AuthAPIError::MissingToken) == 400,
{
}

/// A store out of reach is an `UnexpectedError` of every operation that
/// has to ask it, and of none that is turned down before: malformed input
/// stays `InvalidCredentials` and a missing cookie `MissingToken`.
pub proof fn lemma_store_out_of_reach(
    accounts: Map<Seq<char>, Account>,
    challenges: Map<Seq<char>, (Seq<char>, Seq<char>)>,
    tokens: Set<Seq<char>>,
    email: Seq<char>,
    password: Seq<char>,
    login_attempt_id: Seq<char>,
    code: Seq<char>,
    cookie: Option<Seq<char>>,
    asked: Seq<char>,
)
    ensures
        signup_verdict(accounts, false, email, password) == Err::<(), AuthAPIError>(
            if is_valid_email(email) && is_valid_password(password) {
                AuthAPIError::UnexpectedError
            } else {
                AuthAPIError::InvalidCredentials
            },
        ),
        login_verdict(accounts, false, email, password) == signup_verdict(
            accounts,
            false,
            email,
            password,
        ),
        verify_2fa_verdict(challenges, false, email, login_attempt_id, code) == Err::<
            (),
            AuthAPIError,
        >(
            if is_valid_answer(email, login_attempt_id, code) {
                AuthAPIError::UnexpectedError
            } else {
                AuthAPIError::InvalidCredentials
            },
        ),
        logout_refusal(tokens, false, cookie) == Some(
            if cookie is Some {
                AuthAPIError::UnexpectedError
            } else {
                AuthAPIError::MissingToken
            },
        ),
        token_query_refusal(tokens, false, cookie, asked) == Some(AuthAPIError::UnexpectedError),
        error_status(AuthAPIError::UnexpectedError) == 500,
{
}

} // verus!
