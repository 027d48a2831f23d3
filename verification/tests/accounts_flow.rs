use mmorpg::accounts::{
    register_step, summaries_from_stored, validate_registration, DbError, LoginAction, LoginEvent,
    LoginFlow, RegisterAction, RegisterEvent, RegisterRequest, StoredCharacterSummary, User,
};
use mmorpg::class::CharacterClass;
use mmorpg::jwt::{create_token_at, verify_token, verify_token_at, TokenError};
use mmorpg::password::{hash_password, verify_password};
use mmorpg::protocol::AuthResponse;
use mmorpg::session::SessionManager;

fn request(username: &str, password: &str) -> RegisterRequest {
    RegisterRequest { username: username.to_string(), password: password.to_string(), email: None }
}

fn refusal(action: RegisterAction) -> String {
    match action {
        RegisterAction::Respond(AuthResponse::RegisterFailed { reason }) => reason,
        _ => panic!("expected a refusal"),
    }
}

fn login_refusal(action: LoginAction) -> String {
    match action {
        LoginAction::Respond(AuthResponse::LoginFailed { reason }) => reason,
        _ => panic!("expected a refusal"),
    }
}

fn db_error() -> DbError {
    DbError { message: "disk I/O error".to_string() }
}

#[test]
fn registration_validation_messages() {
    let reason = refusal(register_step(&request("ab", "password123"), RegisterEvent::Start));
    assert!(reason.contains("3 and 20 characters"));
    let reason = refusal(register_step(&request("testuser", "short"), RegisterEvent::Start));
    assert!(reason.contains("at least 8 characters"));
    let reason = refusal(register_step(
        &request("abcdefghijklmnopqrstu", "password123"),
        RegisterEvent::Start,
    ));
    assert_eq!(reason, "Username must be between 3 and 20 characters");
    assert_eq!(validate_registration("abc", "12345678"), None);
    assert_eq!(
        validate_registration("abc", "1234567"),
        Some("Password must be at least 8 characters".to_string())
    );
}

#[test]
fn registration_runs_to_success() {
    let req = request("testuser", "password123");
    assert!(matches!(register_step(&req, RegisterEvent::Start), RegisterAction::CheckUsername));
    match register_step(&req, RegisterEvent::UsernameChecked(Ok(false))) {
        RegisterAction::CreateUser { password_hash } => {
            assert!(password_hash.starts_with("$2b$12$"));
            assert_eq!(password_hash.len(), 60);
            assert!(verify_password("password123", &password_hash).unwrap());
        }
        _ => panic!("expected CreateUser"),
    }
    assert!(matches!(
        register_step(&req, RegisterEvent::UserCreated(Ok(1))),
        RegisterAction::Respond(AuthResponse::RegisterSuccess)
    ));
}

#[test]
fn registration_refusals_from_the_database() {
    let req = request("testuser", "differentpass");
    let reason = refusal(register_step(&req, RegisterEvent::UsernameChecked(Ok(true))));
    assert!(reason.contains("already exists"));
    assert_eq!(
        refusal(register_step(&req, RegisterEvent::UsernameChecked(Err(db_error())))),
        "Internal server error"
    );
    assert_eq!(
        refusal(register_step(&req, RegisterEvent::UserCreated(Err(db_error())))),
        "Failed to create user"
    );
}

#[test]
fn login_of_unknown_user_is_refused() {
    let mut sessions = SessionManager::new();
    let mut flow = LoginFlow::new("nonexistent".to_string(), "password123".to_string());
    assert!(matches!(flow.login_step(&mut sessions, LoginEvent::Start), LoginAction::FindUser));
    let reason = login_refusal(flow.login_step(&mut sessions, LoginEvent::UserFound(Ok(None))));
    assert!(reason.contains("Invalid username or password"));
    assert_eq!(sessions.active_sessions_count(), 0);
}

#[test]
fn login_with_wrong_password_is_refused() {
    let mut sessions = SessionManager::new();
    let hash = hash_password("correctpass").unwrap();
    let user = User { id: 1, username: "testuser".to_string(), password_hash: hash, email: None };
    let mut flow = LoginFlow::new("testuser".to_string(), "wrongpass".to_string());
    let reason = login_refusal(flow.login_step(&mut sessions, LoginEvent::UserFound(Ok(Some(user)))));
    assert!(reason.contains("Invalid username or password"));
    assert!(flow.user.is_none());
}

#[test]
fn login_with_a_database_error_is_refused() {
    let mut sessions = SessionManager::new();
    let mut flow = LoginFlow::new("testuser".to_string(), "password123".to_string());
    let reason = login_refusal(flow.login_step(&mut sessions, LoginEvent::UserFound(Err(db_error()))));
    assert_eq!(reason, "Internal server error");
    let reason = login_refusal(flow.login_step(&mut sessions, LoginEvent::LastLoginUpdated(Ok(()))));
    assert_eq!(reason, "Internal server error");
}

#[test]
fn login_runs_to_a_session() {
    let mut sessions = SessionManager::new();
    let hash = hash_password("password123").unwrap();
    let user = User {
        id: 7,
        username: "testuser".to_string(),
        password_hash: hash,
        email: Some("test@example.com".to_string()),
    };
    let mut flow = LoginFlow::new("testuser".to_string(), "password123".to_string());
    assert!(matches!(flow.login_step(&mut sessions, LoginEvent::Start), LoginAction::FindUser));
    assert!(matches!(
        flow.login_step(&mut sessions, LoginEvent::UserFound(Ok(Some(user)))),
        LoginAction::UpdateLastLogin { user_id: 7 }
    ));
    // A failure to record the login time does not stop the login.
    assert!(matches!(
        flow.login_step(&mut sessions, LoginEvent::LastLoginUpdated(Err(db_error()))),
        LoginAction::LoadCharacters { user_id: 7 }
    ));
    let stored = vec![StoredCharacterSummary {
        id: 3,
        name: "CycleHero".to_string(),
        class: "Sura".to_string(),
        level: 12,
        last_played: None,
    }];
    match flow.login_step(&mut sessions, LoginEvent::CharactersLoaded(Ok(stored))) {
        LoginAction::Respond(AuthResponse::LoginSuccess { token, characters }) => {
            assert!(!token.is_empty());
            assert_eq!(characters.len(), 1);
            assert_eq!(characters[0].name, "CycleHero");
            assert_eq!(characters[0].class, CharacterClass::Sura);
            let session = sessions.validate_token(&token).unwrap();
            assert_eq!(session.user_id, 7);
            assert_eq!(session.username, "testuser");
            assert_eq!(session.character_id, None);
            assert_eq!(session.expires_at - session.created_at, 24 * 3_600_000_000_000);
            let claims = verify_token(&token).unwrap();
            assert_eq!(claims.user_id, 7);
            assert_eq!(claims.username, "testuser");
            assert_eq!(claims.exp - claims.iat, 24 * 3600);
        }
        _ => panic!("expected LoginSuccess"),
    }
    assert_eq!(sessions.active_sessions_count(), 1);
}

#[test]
fn login_without_characters_lists_none() {
    let mut sessions = SessionManager::new();
    let hash = hash_password("password123").unwrap();
    let user = User { id: 2, username: "testuser".to_string(), password_hash: hash, email: None };
    let mut flow = LoginFlow::new("testuser".to_string(), "password123".to_string());
    flow.login_step(&mut sessions, LoginEvent::UserFound(Ok(Some(user))));
    match flow.login_step(&mut sessions, LoginEvent::CharactersLoaded(Err(db_error()))) {
        LoginAction::Respond(AuthResponse::LoginSuccess { token, characters }) => {
            assert!(!token.is_empty());
            assert_eq!(characters.len(), 0);
        }
        _ => panic!("expected LoginSuccess"),
    }
}

#[test]
fn summaries_keep_order_and_read_classes() {
    let stored = vec![
        StoredCharacterSummary {
            id: 1,
            name: "Warrior".to_string(),
            class: "Krieger".to_string(),
            level: 3,
            last_played: Some("2024-01-01T00:00:00+00:00".to_string()),
        },
        StoredCharacterSummary {
            id: 2,
            name: "Mage".to_string(),
            class: "Schamane".to_string(),
            level: 9,
            last_played: None,
        },
        StoredCharacterSummary {
            id: 3,
            name: "Rogue".to_string(),
            class: "Unknown".to_string(),
            level: 1,
            last_played: None,
        },
    ];
    let list = summaries_from_stored(stored);
    let names: Vec<&str> = list.iter().map(|c| c.name.as_str()).collect();
    assert_eq!(names, vec!["Warrior", "Mage", "Rogue"]);
    assert_eq!(list[1].class, CharacterClass::Schamane);
    assert_eq!(list[2].class, CharacterClass::Krieger);
    assert_eq!(list[0].last_played.as_deref(), Some("2024-01-01T00:00:00+00:00"));
    assert!(list.iter().all(|c| c.specialization.is_none()));
}

#[test]
fn token_made_at_a_time_carries_it() {
    let token = create_token_at(5, "alice", 2, 4_000_000_000).unwrap();
    // Far in the future, so it is still valid.
    let claims = verify_token(&token).unwrap();
    assert_eq!(claims.user_id, 5);
    assert_eq!(claims.username, "alice");
    assert_eq!(claims.iat, 4_000_000_000);
    assert_eq!(claims.exp, 4_000_000_000 + 2 * 3600);
    let again = create_token_at(5, "alice", 2, 4_000_000_000).unwrap();
    assert_eq!(token, again);
}

#[test]
fn expired_token_is_refused() {
    let token = create_token_at(5, "alice", 1, 1_000).unwrap();
    assert!(matches!(verify_token(&token), Err(TokenError::Expired)));
}

#[test]
fn login_at_a_given_time_stamps_token_and_session() {
    let mut sessions = SessionManager::new();
    let hash = hash_password("password123").unwrap();
    let user = User { id: 4, username: "timed".to_string(), password_hash: hash, email: None };
    let mut flow = LoginFlow::new("timed".to_string(), "password123".to_string());
    let now: i128 = 4_000_000_000_500_000_000;
    flow.login_step_at(&mut sessions, LoginEvent::UserFound(Ok(Some(user))), now);
    match flow.login_step_at(&mut sessions, LoginEvent::CharactersLoaded(Ok(vec![])), now) {
        LoginAction::Respond(AuthResponse::LoginSuccess { token, characters }) => {
            assert!(characters.is_empty());
            let claims = verify_token(&token).unwrap();
            assert_eq!(claims.iat, 4_000_000_000);
            assert_eq!(claims.exp, 4_000_000_000 + 24 * 3600);
            assert_eq!(token, create_token_at(4, "timed", 24, 4_000_000_000).unwrap());
            let session = sessions.get_session(&token).unwrap();
            assert_eq!(session.created_at, now);
            assert_eq!(session.expires_at, now + 24 * 3_600_000_000_000);
            assert!(sessions.validate_token_at(&token, now + 24 * 3_600_000_000_000).is_some());
            assert!(sessions.validate_token_at(&token, now + 24 * 3_600_000_000_000 + 1).is_none());
        }
        _ => panic!("expected LoginSuccess"),
    }
}

#[test]
fn token_expiry_at_a_given_time() {

    let token = create_token_at(9, "bob", 1, 10_000).unwrap();
    let exp = 10_000 + 3600;
    let claims = verify_token_at(&token, exp + 60).unwrap();
    assert_eq!(claims.user_id, 9);
    assert_eq!(claims.username, "bob");
    assert_eq!(claims.exp, exp);
    assert_eq!(claims.iat, 10_000);
    assert!(matches!(verify_token_at(&token, exp + 61), Err(TokenError::Expired)));
    assert!(matches!(verify_token_at("invalid.token.here", 0), Err(TokenError::Jwt(_))));
}
