use mmorpg::jwt::{create_token, verify_token};
use mmorpg::password::{hash_password, verify_password};
use mmorpg::session::{SessionData, SessionManager};

#[test]
fn test_create_token() {
    let token = create_token(1, "testuser", 24).unwrap();
    assert!(!token.is_empty());
}

#[test]
fn test_verify_valid_token() {
    let token = create_token(1, "testuser", 24).unwrap();
    let claims = verify_token(&token).unwrap();

    assert_eq!(claims.user_id, 1);
    assert_eq!(claims.username, "testuser");
}

#[test]
fn test_verify_invalid_token() {
    let result = verify_token("invalid.token.here");
    assert!(result.is_err());
}

#[test]
fn test_hash_password() {
    let password = "test_password_123";
    let hash = hash_password(password).unwrap();

    assert_ne!(password, hash);
    assert!(hash.starts_with("$2"));
}

#[test]
fn test_verify_password_success() {
    let password = "test_password_123";
    let hash = hash_password(password).unwrap();

    let result = verify_password(password, &hash).unwrap();
    assert!(result);
}

#[test]
fn test_verify_password_failure() {
    let password = "test_password_123";
    let wrong_password = "wrong_password";
    let hash = hash_password(password).unwrap();

    let result = verify_password(wrong_password, &hash).unwrap();
    assert!(!result);
}

#[test]
fn test_session_creation() {
    let session = SessionData::new(1, "testuser".to_string(), "token123".to_string(), 24);

    assert_eq!(session.user_id, 1);
    assert_eq!(session.username, "testuser");
    assert_eq!(session.character_id, None);
    assert!(!session.is_expired());
}

#[test]
fn test_session_manager() {
    let mut manager = SessionManager::new();
    let session = SessionData::new(1, "testuser".to_string(), "token123".to_string(), 24);

    manager.add_session("token123".to_string(), session);

    assert!(manager.get_session("token123").is_some());
    assert!(manager.validate_token("token123").is_some());
    assert_eq!(manager.active_sessions_count(), 1);
}

#[test]
fn test_set_character() {
    let mut session = SessionData::new(1, "testuser".to_string(), "token123".to_string(), 24);

    assert_eq!(session.character_id, None);
    session.set_character(5);
    assert_eq!(session.character_id, Some(5));
}

#[test]
fn test_password_hashing() {
    let password = "mypassword123";
    let hash = hash_password(password).unwrap();

    assert!(verify_password(password, &hash).unwrap());

    assert!(!verify_password("wrongpassword", &hash).unwrap());
}

#[test]
fn test_jwt_token() {
    let token = create_token(123, "testuser", 24).unwrap();

    let claims = verify_token(&token).unwrap();
    assert_eq!(claims.user_id, 123);
    assert_eq!(claims.username, "testuser");
}
