use bcrypt::BcryptError;
use contact_book::account::{
    check_login, conclude_hash, conclude_login, hash_password, signup_step, AccountError,
    SignupStep, SIGNUP_ATTEMPTS,
};

const HASH_OF_PASSWORD: &str = "$2a$04$UuTkLRZZ6QofpDOlMz32MuuxEHA43WOemOYHPz6.SjsVsyO1tDU96";
const HASH_OF_ANOTHER: &str = "$2b$04$EGdrhbKUv8Oc9vGiXX0HQOxSg445d458Muh7DAHskb6QbtCvdxcie";

fn rows(entries: &[(u32, &str)]) -> Vec<(u32, String)> {
    entries.iter().map(|(id, hash)| (*id, hash.to_string())).collect()
}

#[test]
fn right_password_logs_in() {
    let table = rows(&[(7, HASH_OF_PASSWORD)]);
    assert!(matches!(check_login("password", &table), Ok(7)));
}

#[test]
fn wrong_password_is_refused() {
    let table = rows(&[(7, HASH_OF_PASSWORD)]);
    assert!(matches!(check_login("wrong", &table), Err(AccountError::InvalidCredentials)));
    assert!(matches!(check_login("", &table), Err(AccountError::InvalidCredentials)));
}

#[test]
fn unknown_user_is_refused() {
    assert!(matches!(check_login("password", &[]), Err(AccountError::InvalidCredentials)));
}

#[test]
fn only_the_first_row_counts() {
    let first_wrong = rows(&[(1, HASH_OF_ANOTHER), (2, HASH_OF_PASSWORD)]);
    assert!(matches!(
        check_login("password", &first_wrong),
        Err(AccountError::InvalidCredentials)
    ));
    let first_right = rows(&[(2, HASH_OF_PASSWORD), (1, "no hash")]);
    assert!(matches!(check_login("password", &first_right), Ok(2)));
}

#[test]
fn unreadable_hash_is_an_error() {
    let table = rows(&[(7, "not a bcrypt hash")]);
    assert!(matches!(
        check_login("password", &table),
        Err(AccountError::Hash(BcryptError::InvalidHash(_)))
    ));
}

#[test]
fn login_is_concluded_from_the_answer() {
    assert!(matches!(conclude_login(3, Ok(true)), Ok(3)));
    assert!(matches!(conclude_login(3, Ok(false)), Err(AccountError::InvalidCredentials)));
    assert!(matches!(
        conclude_login(3, Err(BcryptError::CostNotAllowed(99))),
        Err(AccountError::Hash(BcryptError::CostNotAllowed(99)))
    ));
}

#[test]
fn hashed_password_logs_in() {
    let hash = hash_password("hunter2").unwrap();
    assert_ne!(hash, "hunter2");
    let table = vec![(11, hash)];
    assert!(matches!(check_login("hunter2", &table), Ok(11)));
    assert!(matches!(check_login("hunter3", &table), Err(AccountError::InvalidCredentials)));
}

#[test]
fn signup_has_three_attempts() {
    assert_eq!(SIGNUP_ATTEMPTS, 3);
    assert_eq!(signup_step(1, true), SignupStep::AskAgain);
    assert_eq!(signup_step(2, true), SignupStep::AskAgain);
    assert_eq!(signup_step(3, true), SignupStep::GiveUp);
    assert_eq!(signup_step(4, true), SignupStep::GiveUp);
}

#[test]
fn free_name_is_accepted_at_any_attempt() {
    assert_eq!(signup_step(1, false), SignupStep::Accept);
    assert_eq!(signup_step(2, false), SignupStep::Accept);
    assert_eq!(signup_step(3, false), SignupStep::Accept);
}

#[test]
fn errors_have_their_words() {
    assert_eq!(AccountError::InvalidCredentials.message(), "Username/Password not valid");
    assert_eq!(
        AccountError::TooManyAttempts.message(),
        "Unable to signup, 3 invalid signup attempts"
    );
    assert_eq!(
        AccountError::Hash(BcryptError::CostNotAllowed(99)).message(),
        BcryptError::CostNotAllowed(99).to_string()
    );
    assert_ne!(AccountError::Hash(BcryptError::CostNotAllowed(99)).message(), "");
}

#[test]
fn hashing_is_concluded_from_the_answer() {
    let answer = conclude_hash(Ok("$2b$12$abc".to_string()));
    assert!(matches!(answer, Ok(hash) if hash == "$2b$12$abc"));
    assert!(matches!(
        conclude_hash(Err(BcryptError::CostNotAllowed(3))),
        Err(AccountError::Hash(BcryptError::CostNotAllowed(3)))
    ));
}
