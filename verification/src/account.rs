//! Accounts: what a login and a signup come to.
//!
//! The host asks the questions and reads the user table; this module
//! decides. Passwords are hashed and compared by bcrypt.

use vstd::prelude::*;
use bcrypt::BcryptError;

verus! {

/// The error type of the bcrypt crate. Nothing is known of its values.
#[verifier::external_type_specification]
#[verifier::external_body]
pub struct ExBcryptError(BcryptError);

/// What bcrypt makes of a password and a stored hash: `Some(true)` where
/// the password is the one that was hashed, `Some(false)` where it is not,
/// and `None` where the hash cannot be read.
pub uninterp spec fn bcrypt_verdict(password: Seq<char>, hash: Seq<char>) -> Option<bool>;

/// Calls `bcrypt::verify`. It reads cost and salt out of the hash, hashes
/// the password with them and compares: the answer depends on the two
/// texts alone, and is what [`bcrypt_verdict`] stands for. An error means
/// that the hash was refused.
#[verifier::external_body]
fn bcrypt_verify(password: &str, hash: &str) -> (answer: Result<bool, BcryptError>)
    ensures
        match answer {
            Ok(same) => bcrypt_verdict(password@, hash@) == Some(same),
            Err(_) => bcrypt_verdict(password@, hash@) is None,
        },
{
    bcrypt::verify(password, hash)
}

/// Calls `bcrypt::hash` with the crate's default cost. The salt is drawn
/// at random, so two calls give two hashes; but whatever hash comes back
/// holds the cost and the salt that made it, and `bcrypt::verify` accepts
/// it for the same password.
#[verifier::external_body]
fn bcrypt_hash(password: &str) -> (answer: Result<String, BcryptError>)
    ensures
        answer matches Ok(hash) ==> bcrypt_verdict(password@, hash@) == Some(true),
{
    bcrypt::hash(password, bcrypt::DEFAULT_COST)
}

/// Why a login or a signup did not go through.
#[derive(Debug)]
pub enum AccountError {
    /// No such user, or not the user's password.
    InvalidCredentials,
    /// Every signup attempt named a user that exists.
    TooManyAttempts,
    /// bcrypt could not hash, or could not read a stored hash.
    Hash(BcryptError),
}

impl AccountError {
    /// The words for the user.
    pub fn message(&self) -> (message: String)
        ensures
            self is InvalidCredentials ==> message@ == "Username/Password not valid"@,
            self is TooManyAttempts ==> message@
                == "Unable to signup, 3 invalid signup attempts"@,
    {
        match self {
            AccountError::InvalidCredentials => "Username/Password not valid".to_owned(),
            AccountError::TooManyAttempts => {
                "Unable to signup, 3 invalid signup attempts".to_owned()
            },
            AccountError::Hash(error) => error.to_string(),
        }
    }
}

/// What a login comes to once bcrypt has answered: the user's id where the
/// password is the user's, and an error otherwise.
pub fn conclude_login(user_id: u32, answer: Result<bool, BcryptError>) -> (result: Result<
    u32,
    AccountError,
>)
    ensures
        match answer {
            Ok(true) => result == Ok::<u32, AccountError>(user_id),
            Ok(false) => result == Err::<u32, AccountError>(AccountError::InvalidCredentials),
            Err(error) => result == Err::<u32, AccountError>(AccountError::Hash(error)),
        },
{
    match answer {
        Ok(true) => Ok(user_id),
        Ok(false) => Err(AccountError::InvalidCredentials),
        Err(error) => Err(AccountError::Hash(error)),
    }
}

/// Checks a password against the rows that the user table holds for a
/// user name: pairs of user id and password hash. Only the first row
/// counts. Without a row the login fails; with one, bcrypt decides.
pub fn check_login(password: &str, rows: &[(u32, String)]) -> (result: Result<u32, AccountError>)
    ensures
        rows@.len() == 0 ==> result == Err::<u32, AccountError>(AccountError::InvalidCredentials),
        rows@.len() > 0 ==> match bcrypt_verdict(password@, rows@[0].1@) {
            Some(true) => result == Ok::<u32, AccountError>(rows@[0].0),
            Some(false) => result == Err::<u32, AccountError>(AccountError::InvalidCredentials),
            None => result matches Err(AccountError::Hash(_)),
        },
{
    if rows.len() == 0 {
        return Err(AccountError::InvalidCredentials);
    }
    let answer = bcrypt_verify(password, rows[0].1.as_str());
    conclude_login(rows[0].0, answer)
}

/// What hashing a new password comes to once bcrypt has answered: the
/// hash, or the error that bcrypt gave.
pub fn conclude_hash(answer: Result<String, BcryptError>) -> (result: Result<String, AccountError>)
    ensures
        match answer {
            Ok(hash) => result == Ok::<String, AccountError>(hash),
            Err(error) => result == Err::<String, AccountError>(AccountError::Hash(error)),
        },
{
    match answer {
        Ok(hash) => Ok(hash),
        Err(error) => Err(AccountError::Hash(error)),
    }
}

/// Hashes a new password for the user table. The hash that comes back is
/// one that [`check_login`] accepts for the same password.
pub fn hash_password(password: &str) -> (result: Result<String, AccountError>)
    ensures
        match result {
            Ok(hash) => bcrypt_verdict(password@, hash@) == Some(true),
            Err(error) => error is Hash,
        },
{
    conclude_hash(bcrypt_hash(password))
}

/// How often a signup may name a user.
pub const SIGNUP_ATTEMPTS: u32 = 3;

/// What follows when a signup has named a user.
#[derive(Debug, Clone, Copy, PartialEq, Eq, Structural)]
pub enum SignupStep {
    /// The name is free: the signup goes on with it.
    Accept,
    /// The name is taken: the host asks for another.
    AskAgain,
    /// The name is taken and no attempt is left: the signup fails.
    GiveUp,
}

/// What follows the attempt of number `attempt`, counted from one, where
/// `taken` says whether the user table holds the name.
pub open spec fn signup_step_of(attempt: u32, taken: bool) -> SignupStep {
    if !taken {
        SignupStep::Accept
    } else if attempt < SIGNUP_ATTEMPTS {
        SignupStep::AskAgain
    } else {
        SignupStep::GiveUp
    }
}

/// Decides what follows a signup attempt.
pub fn signup_step(attempt: u32, taken: bool) -> (step: SignupStep)
    ensures
        step == signup_step_of(attempt, taken),
{
    if !taken {
        SignupStep::Accept
    } else if attempt < SIGNUP_ATTEMPTS {
        SignupStep::AskAgain
    } else {
        SignupStep::GiveUp
    }
}

} // verus!
