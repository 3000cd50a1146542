use auth_service::auth::generate_auth_token;
use auth_service::banned_token_store::{get_key as banned_key, BannedTokenStoreError, HashsetBannedTokenStore};
use auth_service::email::Email;
use auth_service::password::Password;
use auth_service::two_fa::{LoginAttemptId, TwoFACode};
use auth_service::two_fa_code_store::{get_key as code_key, HashmapTwoFACodeStore, TwoFACodeStoreError};
use auth_service::user::User;
use auth_service::user_store::{HashmapUserStore, UserStoreError};

const DEFAULT_EMAIL: &str = "testing@email.com";
const DEFAULT_PASSWORD: &str = "qazWSX123";

fn email(s: &str) -> Email {
    Email::parse(s.to_owned()).unwrap()
}

fn user(e: &str, p: &str, requires_2fa: bool) -> User {
    User::new(email(e), Password::parse(p.to_owned()).unwrap(), requires_2fa)
}

#[test]
fn banned_token_store_test_add_token() {
    let mut banned_token_store = HashsetBannedTokenStore::new();
    let token = generate_auth_token(&email(DEFAULT_EMAIL), b"foo").unwrap();

    // Test adding a new token
    let result = banned_token_store.add_token(token.clone());
    assert!(result.is_ok());

    // Test adding an existing token
    let result = banned_token_store.add_token(token);
    assert!(result.is_ok());

    let mut store = HashsetBannedTokenStore::new();
    let token = "test_token".to_owned();
    let result = store.add_token(token.clone());
    assert!(result.is_ok());
    assert!(store.contains_token(&token).unwrap());
}

#[test]
fn test_validate_succeeds_if_token_is_not_banned() {
    let banned_token_store = HashsetBannedTokenStore::new();
    let token = "random_token".to_string();

    let result = banned_token_store.validate_token(&token);
    assert!(result.is_ok());
}

#[test]
fn test_validate_fails_if_token_is_banned() {
    let mut banned_token_store = HashsetBannedTokenStore::new();
    let token = "random_token".to_string();

    let result = banned_token_store.add_token(token.clone());
    assert!(result.is_ok());

    let result = banned_token_store.validate_token(&token);
    assert_eq!(result, Err(BannedTokenStoreError::InvalidToken));
}

#[test]
fn banned_token_store_test_contains_token() {
    let mut store = HashsetBannedTokenStore::new();
    let token = "test_token".to_owned();
    store.add_token(token.clone()).unwrap();

    let result = store.contains_token(&token);

    assert!(result.unwrap());
}

#[test]
fn data_stores_test_add_token() {
    let mut store = HashsetBannedTokenStore::new();
    let token = "test_token".to_owned();

    let result = store.add_token(token.clone());

    assert!(result.is_ok());
    assert!(store.contains_token(&token).unwrap());
}

#[test]
fn data_stores_test_contains_token() {
    let mut store = HashsetBannedTokenStore::new();
    let token = "test_token".to_owned();
    store.add_token(token.clone()).unwrap();

    let result = store.contains_token(&token);

    assert!(result.unwrap());
}

#[test]
fn empty_store_forgets_revocations() {
    let mut store = HashsetBannedTokenStore::new();
    store.add_token("a".to_owned()).unwrap();
    store.add_token("b".to_owned()).unwrap();
    assert!(store.empty_store().is_ok());
    assert!(!store.contains_token(&"a".to_owned()).unwrap());
    assert!(!store.contains_token(&"b".to_owned()).unwrap());
}

#[test]
fn store_keys_carry_their_prefix() {
    assert_eq!(banned_key("abc.def.ghi"), "banned_token:abc.def.ghi");
    assert_eq!(code_key(&email(DEFAULT_EMAIL)), "two_fa_code:testing@email.com");
}

fn check_add_2fa_code() {
    let mut two_fa_code_store = HashmapTwoFACodeStore::new();
    let login_attempt_id = LoginAttemptId::default();
    let two_fa_code = TwoFACode::default();

    let result = two_fa_code_store.add_code(email(DEFAULT_EMAIL), login_attempt_id, two_fa_code);
    assert!(result.is_ok());
}

fn check_remove_2fa_code() {
    let mut two_fa_code_store = HashmapTwoFACodeStore::new();
    let e = email(DEFAULT_EMAIL);
    let login_attempt_id = LoginAttemptId::default();
    let code = TwoFACode::default();

    let result = two_fa_code_store.add_code(e.clone(), login_attempt_id, code);
    assert!(result.is_ok());

    let result = two_fa_code_store.remove_code(&e);
    assert!(result.is_ok());

    let result = two_fa_code_store.remove_code(&e);
    assert_eq!(result, Err(TwoFACodeStoreError::LoginAttemptIdNotFound));
}

fn check_get_2fa_code() {
    let mut two_fa_code_store = HashmapTwoFACodeStore::new();
    let e = email(DEFAULT_EMAIL);
    let login_attempt_id = LoginAttemptId::default();
    let code = TwoFACode::default();

    let result = two_fa_code_store.add_code(e.clone(), login_attempt_id.clone(), code.clone());
    assert!(result.is_ok());

    let result = two_fa_code_store.get_code(&e).unwrap();
    assert_eq!(result.0, login_attempt_id);
    assert!(result.1 == code);

    let missing = two_fa_code_store.get_code(&email("nobody@email.com"));
    assert!(matches!(missing, Err(TwoFACodeStoreError::LoginAttemptIdNotFound)));
}

#[test]
fn data_stores_test_add_2fa_code() {
    check_add_2fa_code();
}

#[test]
fn data_stores_test_remove_2fa_code() {
    check_remove_2fa_code();
}

#[test]
fn data_stores_test_get_2fa_code() {
    check_get_2fa_code();
}

#[test]
fn two_fa_token_store_test_add_2fa_code() {
    check_add_2fa_code();
}

#[test]
fn two_fa_token_store_test_remove_2fa_code() {
    check_remove_2fa_code();
}

#[test]
fn two_fa_token_store_test_get_2fa_code() {
    check_get_2fa_code();
}

#[test]
fn hashmap_two_fa_code_store_test_add_2fa_code() {
    check_add_2fa_code();
}

#[test]
fn hashmap_two_fa_code_store_test_remove_2fa_code() {
    check_remove_2fa_code();
}

#[test]
fn hashmap_two_fa_code_store_test_get_2fa_code() {
    check_get_2fa_code();
}

#[test]
fn a_new_challenge_supersedes_the_pending_one() {
    let mut store = HashmapTwoFACodeStore::new();
    let e = email(DEFAULT_EMAIL);
    let first = LoginAttemptId::parse("550e8400-e29b-41d4-a716-446655440000".to_string()).unwrap();
    let second = LoginAttemptId::parse("6ba7b810-9dad-11d1-80b4-00c04fd430c8".to_string()).unwrap();
    store.add_code(e.clone(), first, TwoFACode::from_number(111111)).unwrap();
    store.add_code(e.clone(), second.clone(), TwoFACode::from_number(222222)).unwrap();
    let (id, code) = store.get_code(&e).unwrap();
    assert_eq!(id, second);
    assert_eq!(code.expose_secret(), "222222");
}

#[test]
fn data_stores_test_add_user() {
    let mut user_store = HashmapUserStore::new();

    // Test adding a new user
    let result = user_store.add_user(user(DEFAULT_EMAIL, DEFAULT_PASSWORD, false));
    assert!(result.is_ok());

    // Test adding an existing user
    let result = user_store.add_user(user(DEFAULT_EMAIL, DEFAULT_PASSWORD, false));
    assert_eq!(result, Err(UserStoreError::UserAlreadyExists));
}

#[test]
fn data_stores_test_get_user() {
    let mut user_store = HashmapUserStore::new();
    let e = email(DEFAULT_EMAIL);
    user_store.add_user(user(DEFAULT_EMAIL, DEFAULT_PASSWORD, false)).unwrap();

    // Test getting a user that exists
    let result = user_store.get_user(&e).unwrap();
    assert_eq!(result.email, e);
    assert!(!result.requires_2fa);
    assert_ne!(result.password_hash, DEFAULT_PASSWORD);

    // Test getting a user that doesn't exist
    let result = user_store.get_user(&email("nonexistent@example.com"));
    assert!(matches!(result, Err(UserStoreError::UserNotFound)));
}

#[test]
fn data_stores_test_validate_user() {
    let mut user_store = HashmapUserStore::new();
    let e = email("test@example.com");
    let password = Password::parse("abcDEF123".to_owned()).unwrap();
    user_store.add_user(user("test@example.com", "abcDEF123", false)).unwrap();

    // Test validating a user that exists with correct password
    let result = user_store.validate_user(&e, &password);
    assert_eq!(result, Ok(()));

    // Test validating a user that exists with incorrect password
    let wrong_password = Password::parse("NONexistent123".to_owned()).unwrap();
    let result = user_store.validate_user(&e, &wrong_password);
    assert_eq!(result, Err(UserStoreError::InvalidCredentials));

    // Test validating a user that doesn't exist
    let result = user_store.validate_user(&email("nonexistent@example.com"), &password);
    assert_eq!(result, Err(UserStoreError::UserNotFound));
}

const STORE_EMAIL: &str = "default@test.com";
const STORE_PASSWORD: &str = "defaultPassword123";

fn default_user_store() -> HashmapUserStore {
    let mut store = HashmapUserStore::new();
    store.add_user(user(STORE_EMAIL, STORE_PASSWORD, true)).unwrap();
    store
}

#[test]
fn hashmap_user_store_test_add_user() {
    let mut hashmap_user_store = default_user_store();
    let added_user = hashmap_user_store.add_user(user("ged@roke.edu", "Sparrowhawk42", true));
    assert!(added_user.is_ok());
}

#[test]
fn hashmap_user_store_test_get_user() {
    let default_email = email(STORE_EMAIL);
    let default_password = Password::parse(STORE_PASSWORD.to_string()).unwrap();
    let hashmap_user_store = default_user_store();

    let user = hashmap_user_store.get_user(&default_email);
    let user = user.expect("Couldn't retrieve user");

    assert_eq!(user.email, default_email);
    assert_eq!(hashmap_user_store.validate_user(&default_email, &default_password), Ok(()));
    assert!(user.requires_2fa);
}

#[test]
fn hashmap_user_store_test_validate_user() {
    let default_email = email(STORE_EMAIL);
    let default_password = Password::parse(STORE_PASSWORD.to_string()).unwrap();
    let hashmap_user_store = default_user_store();

    let user = hashmap_user_store.get_user(&default_email);
    let _user = user.expect("Couldn't retrieve default user");
    assert_eq!(hashmap_user_store.validate_user(&default_email, &default_password), Ok(()));

    // Should return UserStoreError::UserNotFound
    let invalid_user = hashmap_user_store.get_user(&email("invalid@test.com"));
    assert!(matches!(invalid_user, Err(UserStoreError::UserNotFound)));

    // Should return UserStoreError::InvalidCredentials
    let invalid = Password::parse("invalidPassword1".to_owned()).unwrap();
    let invalid = hashmap_user_store.validate_user(&default_email, &invalid);
    assert_eq!(invalid.unwrap_err(), UserStoreError::InvalidCredentials);
}

#[test]
fn delete_user_removes_the_credential() {
    let mut store = default_user_store();
    let e = email(STORE_EMAIL);
    assert_eq!(store.delete_user(&e), Ok(()));
    assert!(store.get_user(&e).is_err());
    assert_eq!(store.delete_user(&e), Err(UserStoreError::UserNotFound));
}

#[test]
fn a_challenge_expires_after_its_window() {
    let mut store = HashmapTwoFACodeStore::new();
    let e = email(DEFAULT_EMAIL);
    let id = LoginAttemptId::parse("550e8400-e29b-41d4-a716-446655440000".to_string()).unwrap();
    store.add_code_at(e.clone(), id, TwoFACode::from_number(654321), 1_000).unwrap();
    assert!(store.get_code_at(&e, 1_000).is_ok());
    assert!(store.get_code_at(&e, 1_599).is_ok());
    assert!(matches!(store.get_code_at(&e, 1_600), Err(TwoFACodeStoreError::LoginAttemptIdNotFound)));
    // an expired challenge can still be dropped
    assert_eq!(store.remove_code(&e), Ok(()));
}
