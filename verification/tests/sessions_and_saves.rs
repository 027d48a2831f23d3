use mmorpg::session::{SessionData, SessionManager, NANOS_PER_HOUR};
use mmorpg::world::{plan_auto_save, restore_unsaved, SaveState};

fn session_at(user_id: i64, token: &str, hours: i64, now: i128) -> SessionData {
    SessionData::new_at(user_id, format!("user{}", user_id), token.to_string(), hours, now)
}

#[test]
fn session_expires_after_its_duration() {
    let s = session_at(1, "a", 24, 1_000);
    assert_eq!(s.created_at, 1_000);
    assert_eq!(s.expires_at, 1_000 + 24 * NANOS_PER_HOUR);
    assert!(!s.is_expired_at(1_000));
    assert!(!s.is_expired_at(1_000 + 24 * NANOS_PER_HOUR));
    assert!(s.is_expired_at(1_001 + 24 * NANOS_PER_HOUR));
    let negative = session_at(1, "b", -1, 10 * NANOS_PER_HOUR);
    assert!(negative.is_expired_at(10 * NANOS_PER_HOUR));
}

#[test]
fn manager_reads_back_what_was_stored() {
    let mut m = SessionManager::new();
    m.add_session("a".to_string(), session_at(1, "a", 1, 0));
    m.add_session("b".to_string(), session_at(2, "b", 1, 0));
    assert_eq!(m.get_session("a").unwrap().user_id, 1);
    assert_eq!(m.get_session("b").unwrap().user_id, 2);
    assert!(m.get_session("c").is_none());
    // Storing under a token again replaces the session.
    m.add_session("a".to_string(), session_at(3, "a", 1, 0));
    assert_eq!(m.get_session("a").unwrap().user_id, 3);
    assert_eq!(m.active_sessions_count_at(0), 2);
    let removed = m.remove_session("a").unwrap();
    assert_eq!(removed.user_id, 3);
    assert!(m.get_session("a").is_none());
    assert!(m.remove_session("a").is_none());
    assert_eq!(m.active_sessions_count_at(0), 1);
}

#[test]
fn validation_depends_on_the_time() {
    let mut m = SessionManager::new();
    m.add_session("a".to_string(), session_at(1, "a", 1, 0));
    assert!(m.validate_token_at("a", NANOS_PER_HOUR).is_some());
    assert!(m.validate_token_at("a", NANOS_PER_HOUR + 1).is_none());
    assert!(m.validate_token_at("zzz", 0).is_none());
    // An expired session is not removed by looking it up.
    assert!(m.get_session("a").is_some());
}

#[test]
fn cleanup_drops_exactly_the_expired() {
    let mut m = SessionManager::new();
    m.add_session("short".to_string(), session_at(1, "short", 1, 0));
    m.add_session("long".to_string(), session_at(2, "long", 48, 0));
    m.add_session("mid".to_string(), session_at(3, "mid", 5, 0));
    assert_eq!(m.active_sessions_count_at(2 * NANOS_PER_HOUR), 2);
    let removed = m.cleanup_expired_at(2 * NANOS_PER_HOUR);
    assert_eq!(removed, 1);
    assert!(m.get_session("short").is_none());
    assert!(m.get_session("long").is_some());
    assert!(m.get_session("mid").is_some());
    assert_eq!(m.cleanup_expired_at(2 * NANOS_PER_HOUR), 0);
    assert_eq!(m.cleanup_expired_at(100 * NANOS_PER_HOUR), 2);
    assert_eq!(m.active_sessions_count_at(0), 0);
}

#[test]
fn fresh_sessions_are_active_now() {
    let mut m = SessionManager::new();
    m.add_session("t".to_string(), SessionData::new(9, "x".to_string(), "t".to_string(), 24));
    assert_eq!(m.cleanup_expired(), 0);
    assert_eq!(m.active_sessions_count(), 1);
    let mut s = SessionData::new(9, "x".to_string(), "t".to_string(), 24);
    s.set_character(3);
    assert_eq!(s.character_id, Some(3));
    assert_eq!(s.user_id, 9);
}

#[test]
fn dirty_flag_simulation() {
    let interval = 300_000u64;
    let mut states = vec![SaveState::new(1, 0), SaveState::new(2, 0)];
    states[0].mark_moved();
    assert!(states[0].dirty);
    assert!(!states[0].is_due(10_000, interval));
    let saved = plan_auto_save(&mut states, 60_000, interval);
    assert!(saved.is_empty());
    let saved = plan_auto_save(&mut states, 300_000, interval);
    assert_eq!(saved, vec![0]);
    assert!(!states[0].dirty);
    assert_eq!(states[0].last_save, 300_000);
    assert_eq!(states[1].last_save, 0);
    // Not moved since: nothing to save.
    assert!(plan_auto_save(&mut states, 900_000, interval).is_empty());
}

#[test]
fn several_players_are_saved_in_order() {
    let interval = 100u64;
    let mut states: Vec<SaveState> = (0..5).map(|i| SaveState::new(i, 0)).collect();
    for i in [1usize, 3, 4] {
        states[i].mark_moved();
    }
    let saved = plan_auto_save(&mut states, 100, interval);
    assert_eq!(saved, vec![1, 3, 4]);
    assert!(states.iter().all(|s| !s.dirty));
    // A clock that seems to go back saves nothing.
    states[2].mark_moved();
    assert!(plan_auto_save(&mut states, 50, interval).is_empty());
}

#[test]
fn failed_saves_are_retried() {
    let interval = 10u64;
    let mut states = vec![SaveState::new(7, 0), SaveState::new(8, 0), SaveState::new(7, 0)];
    states[0].mark_moved();
    states[1].mark_moved();
    let saved = plan_auto_save(&mut states, 10, interval);
    assert_eq!(saved, vec![0, 1]);
    restore_unsaved(&mut states, &vec![7, 42]);
    assert!(states[0].dirty);
    assert!(!states[1].dirty);
    assert!(!states[2].dirty);
    assert_eq!(states[0].last_save, 10);
    let saved = plan_auto_save(&mut states, 20, interval);
    assert_eq!(saved, vec![0]);
}
