//! Password hashing for a store that keeps hashes, and the decisions such
//! a store makes around its queries: what to insert for a new user, what a
//! fetched row stands for, and whether a password matches a fetched hash.

use vstd::prelude::*;
use argon2::password_hash::rand_core::OsRng;
use argon2::password_hash::SaltString;
use argon2::{Algorithm, Argon2, Params, PasswordHash, PasswordHasher, PasswordVerifier, Version};
use crate::credentials::{is_valid_password, Email, Password, User};
use crate::errors::UserStoreError;

verus! {

/// Name of the hash algorithm.
pub const HASH_ALGORITHM: &'static str = "argon2id";

/// Version of the hash algorithm: 0x13.
pub const HASH_VERSION: u32 = 19;

/// Memory cost of the hash, in KiB.
pub const HASH_MEMORY_KIB: u32 = 15000;

/// Number of passes of the hash.
pub const HASH_ITERATIONS: u32 = 2;

/// Degree of parallelism of the hash.
pub const HASH_LANES: u32 = 1;

/// A row of the user table.
pub struct DBUser {
    pub email: String,
    pub password_hash: String,
    pub requires_2fa: bool,
}

/// Name of the memory cost among the parameters of a hash.
pub const MEMORY_PARAM: &'static str = "m";

/// Name of the number of passes among the parameters of a hash.
pub const PASSES_PARAM: &'static str = "t";

/// Name of the number of lanes among the parameters of a hash.
pub const LANES_PARAM: &'static str = "p";

/// Most lanes that a hash may name: 2^24 - 1.
pub const MAX_LANES: u32 = 0xFF_FFFF;

/// What `PasswordHash::new` reads as the parameters of a hash text: each
/// name, in the order of the text, with its value as a decimal where it is
/// one; `None` where the text is no hash.
pub uninterp spec fn hash_params(hash: Seq<char>) -> Option<Seq<(Seq<char>, Option<u32>)>>;

/// Whether `PasswordHash::new` reads `hash` and `verify_password` of
/// `Argon2::default()` then accepts `candidate` for it.
pub uninterp spec fn password_verifies(hash: Seq<char>, candidate: Seq<char>) -> bool;

/// The parameters that stand for a list of names and decimals.
pub open spec fn params_view(params: Seq<(String, Option<u32>)>) -> Seq<(Seq<char>, Option<u32>)> {
    Seq::new(params.len(), |i: int| (params[i].0@, params[i].1))
}

/// The number of lanes that a list of parameters ends up with: the decimal
/// of the last parameter named `p`.
pub open spec fn lanes_named(params: Seq<(Seq<char>, Option<u32>)>) -> Option<u32>
    decreases params.len(),
{
    if params.len() == 0 {
        None
    } else if params.last().0 == LANES_PARAM@ {
        params.last().1
    } else {
        lanes_named(params.drop_last())
    }
}

/// Whether a hash text can be handed to verification: it names no more
/// than `MAX_LANES` lanes.
pub open spec fn is_admitted_hash(hash: Seq<char>) -> bool {
    match hash_params(hash) {
        Some(params) => match lanes_named(params) {
            Some(lanes) => lanes <= MAX_LANES,
            None => true,
        },
        None => true,
    }
}

/// The parameters of a hash made with the three costs.
pub open spec fn params_of_costs(memory_kib: u32, iterations: u32, lanes: u32) -> Seq<
    (Seq<char>, Option<u32>),
> {
    seq![
        (MEMORY_PARAM@, Some(memory_kib)),
        (PASSES_PARAM@, Some(iterations)),
        (LANES_PARAM@, Some(lanes)),
    ]
}

/// Calls `argon2::PasswordHash::new` on `hash` and hands out the
/// parameters it read, each name with what `Value::decimal` makes of its
/// value. The contract names the outcome.
#[verifier::external_body]
fn read_hash_params(hash: &str) -> (r: Option<Vec<(String, Option<u32>)>>)
    ensures
        hash_params(hash@) == match r {
            Some(params) => Some(params_view(params@)),
            None => None,
        },
{
    match PasswordHash::new(hash) {
        Ok(parsed) => Some(
            parsed.params.iter().map(|(n, v)| (n.as_str().to_owned(), v.decimal().ok())).collect(),
        ),
        Err(_) => None,
    }
}

/// Calls `argon2::PasswordHash::new` on `hash` and, where that reads it,
/// `verify_password` of `argon2::Argon2::default()` with the bytes of
/// `candidate`. The result is whether both succeed; the contract names it.
/// A hash that names more than `MAX_LANES` lanes is left out: on such a
/// text the call multiplies the lanes beyond what their type holds.
#[verifier::external_body]
fn argon2_verify(hash: &str, candidate: &str) -> (ok: bool)
    requires
        is_admitted_hash(hash@),
    ensures
        ok == password_verifies(hash@, candidate@),
{
    match PasswordHash::new(hash) {
        Ok(parsed) => Argon2::default().verify_password(candidate.as_bytes(), &parsed).is_ok(),
        Err(_) => false,
    }
}

/// Calls `hash_password` of the hasher that `argon2::Argon2::new` builds
/// from the named algorithm, the version and the three costs, with a salt
/// from `SaltString::generate` on the system's random source, and prints
/// the hash; `None` stands for an error of any of the calls. More than
/// `MAX_LANES` lanes are left out, as for verification. The salt is
/// random, so the contract does not say which hash comes back. It claims
/// two things of every hash that does: its parameters are the three costs
/// that were handed in, under the names `m`, `t` and `p`; and
/// verification, which takes algorithm, version, costs and salt from the
/// hash itself, accepts the password that was hashed.
#[verifier::external_body]
fn argon2_hash(
    password: &str,
    algorithm: &str,
    version: u32,
    memory_kib: u32,
    iterations: u32,
    lanes: u32,
) -> (r: Option<String>)
    requires
        lanes <= MAX_LANES,
    ensures
        r matches Some(hash) ==> password_verifies(hash@, password@),
        r matches Some(hash) ==> hash_params(hash@) == Some(
            params_of_costs(memory_kib, iterations, lanes),
        ),
{
    let salt = SaltString::generate(&mut OsRng);
    let algorithm = Algorithm::new(algorithm).ok()?;
    let version = Version::try_from(version).ok()?;
    let params = Params::new(memory_kib, iterations, lanes, None).ok()?;
    let hasher = Argon2::new(algorithm, version, params);
    let hash = hasher.hash_password(password.as_bytes(), &salt).ok()?;
    Some(hash.to_string())
}

/// Whether verification accepts `candidate` for a hash text: the text can
/// be handed to verification, and `candidate` verifies against it.
pub open spec fn hash_accepts(hash: Seq<char>, candidate: Seq<char>) -> bool {
    is_admitted_hash(hash) && password_verifies(hash, candidate)
}

/// A hash made here: its parameters are the configured costs, and it
/// verifies `password`.
pub open spec fn is_hash_of(hash: Seq<char>, password: Seq<char>) -> bool {
    &&& password_verifies(hash, password)
    &&& hash_params(hash) == Some(params_of_costs(HASH_MEMORY_KIB, HASH_ITERATIONS, HASH_LANES))
}

/// A hash made here is accepted for its password.
pub proof fn lemma_own_hash_accepted(hash: Seq<char>, password: Seq<char>)
    requires
        is_hash_of(hash, password),
    ensures
        hash_accepts(hash, password),
{
    let params = params_of_costs(HASH_MEMORY_KIB, HASH_ITERATIONS, HASH_LANES);
    assert(params.last() == (LANES_PARAM@, Some(HASH_LANES)));
    assert(lanes_named(params) == Some(HASH_LANES));
}

/// Hashes a password with a fresh salt, the configured algorithm and the
/// configured costs. The hash that comes back carries those costs and
/// verifies the password it was made from; a failure of the hash is
/// `UnexpectedError`.
pub fn compute_password_hash(password: &Password) -> (r: Result<String, UserStoreError>)
    ensures
        match r {
            Ok(hash) => is_hash_of(hash@, password@) && hash_accepts(hash@, password@),
            Err(e) => e == UserStoreError::UnexpectedError,
        },
{
    match argon2_hash(
        password.expose(),
        HASH_ALGORITHM,
        HASH_VERSION,
        HASH_MEMORY_KIB,
        HASH_ITERATIONS,
        HASH_LANES,
    ) {
        Some(hash) => {
            proof {
                lemma_own_hash_accepted(hash@, password@);
            }
            Ok(hash)
        },
        None => Err(UserStoreError::UnexpectedError),
    }
}

/// Finds the number of lanes that a list of parameters ends up with.
fn find_lanes(params: &Vec<(String, Option<u32>)>) -> (lanes: Option<u32>)
    ensures
        lanes == lanes_named(params_view(params@)),
{
    let name = LANES_PARAM.to_owned();
    let ghost all = params_view(params@);
    let mut lanes: Option<u32> = None;
    let mut i: usize = 0;
    while i < params.len()
        invariant
            i <= params@.len(),
            name@ == LANES_PARAM@,
            all == params_view(params@),
            lanes == lanes_named(all.take(i as int)),
        decreases params@.len() - i,
    {
        proof {
            let next = all.take(i + 1);
            assert(next.drop_last() =~= all.take(i as int));
            assert(next.last() == all[i as int]);
        }
        if params[i].0 == name {
            lanes = params[i].1;
        }
        i += 1;
    }
    assert(all.take(i as int) =~= all);
    lanes
}

/// Whether a hash text can be handed to verification.
pub fn admits_hash(hash: &str) -> (ok: bool)
    ensures
        ok == is_admitted_hash(hash@),
{
    match read_hash_params(hash) {
        Some(params) => match find_lanes(&params) {
            Some(lanes) => lanes <= MAX_LANES,
            None => true,
        },
        None => true,
    }
}

/// Checks a candidate password against a stored hash: `Ok` exactly when
/// the hash names no more lanes than a hash may and the candidate
/// verifies against it, `InvalidCredentials` otherwise.
pub fn verify_password_hash(expected_password_hash: &str, password_candidate: &str) -> (r: Result<
    (),
    UserStoreError,
>)
    ensures
        r == (if hash_accepts(expected_password_hash@, password_candidate@) {
            Ok::<(), UserStoreError>(())
        } else {
            Err::<(), UserStoreError>(UserStoreError::InvalidCredentials)
        }),
{
    if admits_hash(expected_password_hash) && argon2_verify(
        expected_password_hash,
        password_candidate,
    ) {
        Ok(())
    } else {
        Err(UserStoreError::InvalidCredentials)
    }
}

/// What validation owes for a fetched hash: no row is `UserNotFound`, a
/// hash that does not accept the password is `InvalidCredentials`.
pub open spec fn row_validation(hash: Option<Seq<char>>, password: Seq<char>) -> Result<
    (),
    UserStoreError,
> {
    match hash {
        None => Err(UserStoreError::UserNotFound),
        Some(h) => if hash_accepts(h, password) {
            Ok(())
        } else {
            Err(UserStoreError::InvalidCredentials)
        },
    }
}

/// Validates a password against the hash fetched for an address, if a row
/// was found.
pub fn validate_fetched(password_hash: Option<String>, password: &Password) -> (r: Result<
    (),
    UserStoreError,
>)
    ensures
        r == row_validation(
            match password_hash {
                Some(h) => Some(h@),
                None => None,
            },
            password@,
        ),
{
    match password_hash {
        Some(hash) => verify_password_hash(hash.as_str(), password.expose()),
        None => Err(UserStoreError::UserNotFound),
    }
}

/// The user that a fetched row stands for: the address asked for, the hash
/// in place of the password, and the second-factor flag of the row. No row
/// is `UserNotFound`; a hash too short to be held as a password is
/// `UnexpectedError`.
pub fn user_from_row(email: &Email, row: Option<DBUser>) -> (r: Result<User, UserStoreError>)
    ensures
        match row {
            None => r == Err::<User, UserStoreError>(UserStoreError::UserNotFound),
            Some(found) => if is_valid_password(found.password_hash@) {
                &&& r matches Ok(user)
                &&& user.email@ == email@
                &&& user.password@ == found.password_hash@
                &&& user.requires_2fa == found.requires_2fa
            } else {
                r == Err::<User, UserStoreError>(UserStoreError::UnexpectedError)
            },
        },
{
    match row {
        Some(found) => match Password::parse(found.password_hash) {
            Ok(password) => Ok(User::new(email.clone(), password, found.requires_2fa)),
            Err(_) => Err(UserStoreError::UnexpectedError),
        },
        None => Err(UserStoreError::UserNotFound),
    }
}

/// The row to insert for a new user, given what the lookup of its address
/// returned. A user that exists is `UserAlreadyExists`; a failed lookup is
/// handed on; otherwise the row holds the address, a fresh hash of the
/// password with the configured costs, and the second-factor flag, or the
/// hash failed.
pub fn row_for_new_user(lookup: Result<User, UserStoreError>, user: &User) -> (r: Result<
    DBUser,
    UserStoreError,
>)
    ensures
        match lookup {
            Ok(_) => r == Err::<DBUser, UserStoreError>(UserStoreError::UserAlreadyExists),
            Err(UserStoreError::UserNotFound) => match r {
                Ok(row) => {
                    &&& row.email@ == user.email@
                    &&& row.requires_2fa == user.requires_2fa
                    &&& is_hash_of(row.password_hash@, user.password@)
                    &&& hash_accepts(row.password_hash@, user.password@)
                },
                Err(e) => e == UserStoreError::UnexpectedError,
            },
            Err(other) => r == Err::<DBUser, UserStoreError>(other),
        },
{
    match lookup {
        Ok(_) => Err(UserStoreError::UserAlreadyExists),
        Err(UserStoreError::UserNotFound) => match compute_password_hash(&user.password) {
            Ok(password_hash) => Ok(
                DBUser {
                    email: user.email.to_str().to_owned(),
                    password_hash,
                    requires_2fa: user.requires_2fa,
                },
            ),
            Err(e) => Err(e),
        },
        Err(other) => Err(other),
    }
}

/// The failure that a refused insert stands for: a violated uniqueness
/// constraint means that the address was taken in the meantime.
pub fn insert_failure(unique_violation: bool) -> (e: UserStoreError)
    ensures
        e == (if unique_violation {
            UserStoreError::UserAlreadyExists
        } else {
            UserStoreError::UnexpectedError
        }),
{
    if unique_violation {
        UserStoreError::UserAlreadyExists
    } else {
        UserStoreError::UnexpectedError
    }
}

} // verus!
