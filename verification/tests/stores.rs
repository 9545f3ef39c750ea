use auth_service::assoc::TextMap;
use auth_service::challenge::{LoginAttemptId, TwoFACode};
use auth_service::credentials::{Email, Password, User};
use auth_service::errors::{BannedTokenStoreError, TwoFACodeStoreError, UserStoreError};
use auth_service::memory::{HashmapTwoFACodeStore, HashmapUserStore, HashsetBannedTokenStore};
use auth_service::stores::{BannedTokenStore, EmailClient, MockEmailClient, TwoFACodeStore, UserStore};

fn email(text: &str) -> Email {
    Email::parse(text.to_string()).ok().unwrap()
}

fn password(text: &str) -> Password {
    Password::parse(text.to_string()).ok().unwrap()
}

#[test]
fn test_add_user() {
    let mut user_store = HashmapUserStore::default();
    let email = Email::parse("test@example.com".to_string()).ok().unwrap();
    let password = Password::parse("password123".to_string()).ok().unwrap();
    let user = User::new(email, password, false);
    let result = user_store.add_user(user);
    assert_eq!(result, Ok(()));
}

#[test]
fn test_get_user() {
    let mut user_store = HashmapUserStore::default();
    let email = Email::parse("test@example.com".to_string()).ok().unwrap();
    let password = Password::parse("password123".to_string()).ok().unwrap();
    let user = User::new(email.clone(), password.clone(), false);
    user_store.add_user(user.clone()).unwrap();
    let result = user_store.get_user(&email);
    assert!(result == Ok(&user));
}

#[test]
fn test_validate_user() {
    let mut user_store = HashmapUserStore::default();
    let email = Email::parse("test@example.com".to_string()).ok().unwrap();
    let password = Password::parse("password123".to_string()).ok().unwrap();
    let user = User::new(email.clone(), password.clone(), false);
    user_store.add_user(user.clone()).unwrap();
    let result = user_store.validate_user(&email, &password);
    assert_eq!(result, Ok(()));
}

#[test]
fn add_user_twice_is_rejected() {
    let mut user_store = HashmapUserStore::new();
    let first = User::new(email("test@example.com"), password("password123"), false);
    let second = User::new(email("test@example.com"), password("another-password"), true);
    assert_eq!(user_store.add_user(first.clone()), Ok(()));
    assert_eq!(user_store.add_user(second), Err(UserStoreError::UserAlreadyExists));
    // the first record is kept
    assert!(user_store.get_user(&email("test@example.com")) == Ok(&first));
}

#[test]
fn get_user_unknown_is_not_found() {
    let user_store = HashmapUserStore::default();
    assert!(user_store.get_user(&email("nobody@example.com")) == Err(UserStoreError::UserNotFound));
}

#[test]
fn validate_user_tells_unknown_from_wrong_password() {
    let mut user_store = HashmapUserStore::default();
    user_store.add_user(User::new(email("a@example.com"), password("password123"), false)).unwrap();
    user_store.add_user(User::new(email("b@example.com"), password("password456"), true)).unwrap();
    assert_eq!(
        user_store.validate_user(&email("c@example.com"), &password("password123")),
        Err(UserStoreError::UserNotFound)
    );
    assert_eq!(
        user_store.validate_user(&email("a@example.com"), &password("password456")),
        Err(UserStoreError::InvalidCredentials)
    );
    assert_eq!(user_store.validate_user(&email("b@example.com"), &password("password456")), Ok(()));
}

#[test]
fn user_store_through_the_abstraction() {
    fn run<S: UserStore>(store: &mut S) {
        let user = User::new(email("a@example.com"), password("password123"), true);
        assert_eq!(store.add_user(user.clone()), Ok(()));
        assert_eq!(store.add_user(user.clone()), Err(UserStoreError::UserAlreadyExists));
        let found = store.get_user(&email("a@example.com")).ok().unwrap();
        assert!(found == user);
        assert!(store.get_user(&email("b@example.com")).err() == Some(UserStoreError::UserNotFound));
        assert_eq!(store.validate_user(&email("a@example.com"), &password("password123")), Ok(()));
        assert_eq!(
            store.validate_user(&email("a@example.com"), &password("password124")),
            Err(UserStoreError::InvalidCredentials)
        );
    }
    run(&mut HashmapUserStore::default());
}

#[test]
fn test_add_token() {
    let mut token_store = HashsetBannedTokenStore::default();
    let token = "test_token".to_string();
    let result = token_store.add_token(token.clone());
    assert!(result.is_ok());
    let result = token_store.add_token(token.clone());
    assert!(result.is_err());
}

#[test]
fn test_get_token() {
    let mut token_store = HashsetBannedTokenStore::default();
    let token = "test_token".to_string();
    token_store.add_token(token.clone()).unwrap();
    let result = token_store.get_token(&token);
    assert!(result.is_ok());
    assert_eq!(result.unwrap(), token);
}

#[test]
fn test_contains_token() {
    let mut token_store = HashsetBannedTokenStore::default();
    let token = "test_token".to_string();
    token_store.add_token(token.clone()).unwrap();
    let result = token_store.contains_token(&token);
    assert!(result.is_ok());
    assert!(result.unwrap());
    let result = token_store.contains_token(&"not_a_token".to_string());
    assert!(result.is_ok());
    assert!(!result.unwrap());
}

#[test]
fn banned_token_errors() {
    let mut token_store = HashsetBannedTokenStore::new();
    assert_eq!(token_store.get_token("missing"), Err(BannedTokenStoreError::TokenNotFound));
    assert_eq!(token_store.add_token("t".to_string()), Ok(()));
    assert_eq!(token_store.add_token("t".to_string()), Err(BannedTokenStoreError::TokenAlreadyExists));
    assert!(token_store.has_token("t"));
    assert!(!token_store.has_token("T"));
    assert!(!token_store.has_token(""));
}

#[test]
fn test_add_code() {
    let mut store = HashmapTwoFACodeStore::default();
    let email = email("someone@example.com");
    let login_attempt_id = LoginAttemptId::default();
    let code = TwoFACode::default();

    // First add should succeed
    assert!(store.add_code(email.clone(), login_attempt_id.clone(), code.clone()).is_ok());

    // A second add for the same address replaces the pending challenge
    let next_id = LoginAttemptId::default();
    let next_code = TwoFACode::from_number(123_456);
    assert_eq!(store.add_code(email.clone(), next_id.clone(), next_code.clone()), Ok(()));
    let (stored_id, stored_code) = store.get_code(&email).ok().unwrap();
    assert!(stored_id == next_id);
    assert!(stored_code == next_code);
    assert!(stored_id != login_attempt_id);
}

#[test]
fn test_remove_code() {
    let mut store = HashmapTwoFACodeStore::default();
    let email = email("someone@example.com");
    let login_attempt_id = LoginAttemptId::default();
    let code = TwoFACode::default();

    // Remove non-existent code should fail
    assert_eq!(store.remove_code(&email), Err(TwoFACodeStoreError::LoginAttemptIdNotFound));

    // Add code
    store.add_code(email.clone(), login_attempt_id, code).unwrap();

    // Remove existing code should succeed
    assert!(store.remove_code(&email).is_ok());

    // Remove again should fail
    assert_eq!(store.remove_code(&email), Err(TwoFACodeStoreError::LoginAttemptIdNotFound));
}

#[test]
fn test_get_code() {
    let mut store = HashmapTwoFACodeStore::default();
    let email = email("someone@example.com");
    let login_attempt_id = LoginAttemptId::default();
    let code = TwoFACode::default();

    // Get non-existent code should fail
    assert!(store.get_code(&email).err() == Some(TwoFACodeStoreError::LoginAttemptIdNotFound));

    // Add code
    store.add_code(email.clone(), login_attempt_id.clone(), code.clone()).unwrap();

    // Get existing code should succeed
    let result = store.get_code(&email);
    assert!(result.is_ok());
    let (retrieved_id, retrieved_code) = result.ok().unwrap();
    assert!(retrieved_id == login_attempt_id);
    assert!(retrieved_code == code);
}

#[test]
fn challenges_of_other_addresses_are_kept() {
    let mut store = HashmapTwoFACodeStore::new();
    let a = email("a@example.com");
    let b = email("b@example.com");
    let code_a = TwoFACode::from_number(111_111);
    let code_b = TwoFACode::from_number(222_222);
    store.add_code(a.clone(), LoginAttemptId::default(), code_a.clone()).unwrap();
    store.add_code(b.clone(), LoginAttemptId::default(), code_b.clone()).unwrap();
    assert_eq!(store.remove_code(&a), Ok(()));
    assert!(store.get_code(&a).is_err());
    assert!(store.get_code(&b).ok().unwrap().1 == code_b);
}

#[test]
fn mock_email_client_reports_success() {
    let mut client = MockEmailClient::default();
    assert_eq!(client.count(), 0);
    assert_eq!(client.message(0), None);
    let r = client.send_email(&email("a@example.com"), "2FA Code", "123456");
    assert_eq!(r, Ok(()));
    let r = client.send_email(&email("b@example.com"), "Hello", "there");
    assert_eq!(r, Ok(()));
    assert_eq!(client.count(), 2);
    assert_eq!(client.message(0), Some(("a@example.com", "2FA Code", "123456")));
    assert_eq!(client.message(1), Some(("b@example.com", "Hello", "there")));
    assert_eq!(client.message(2), None);
}

#[test]
fn text_map_insert_get_remove() {
    let mut map: TextMap<u32> = TextMap::new();
    let a = "a".to_string();
    let b = "b".to_string();
    assert!(!map.contains_key(&a));
    assert_eq!(map.get(&a), None);
    map.insert(a.clone(), 1);
    map.insert(b.clone(), 2);
    assert_eq!(map.get(&a), Some(&1));
    assert_eq!(map.get(&b), Some(&2));
    map.insert(a.clone(), 3);
    assert_eq!(map.get(&a), Some(&3));
    assert_eq!(map.get(&b), Some(&2));
    assert!(map.remove(&a));
    assert!(!map.remove(&a));
    assert_eq!(map.get(&a), None);
    assert_eq!(map.get(&b), Some(&2));
    assert!(map.contains_key(&b));
    assert!(map.remove(&b));
    assert!(!map.contains_key(&b));
}
