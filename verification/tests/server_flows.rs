use mmorpg::accounts::DbError;
use mmorpg::characters::Character;
use mmorpg::class::CharacterClass;
use mmorpg::protocol::{CharacterAppearance, CharacterData, ServerMessage, Vec3Bits};
use mmorpg::server::{
    specialization_refusal, CreateCharacterAction, CreateCharacterEvent, CreateCharacterFlow,
    DeleteCharacterAction, DeleteCharacterEvent, DeleteCharacterFlow, SelectCharacterAction,
    SelectCharacterEvent, SelectCharacterFlow, SpecializationAction, SpecializationEvent,
    SpecializationFlow,
};
use mmorpg::session::{SessionData, SessionManager};
use mmorpg::specialization::Specialization;

fn manager_with(token: &str, user_id: i64) -> SessionManager {
    let mut m = SessionManager::new();
    m.add_session(
        token.to_string(),
        SessionData::new(user_id, "testuser".to_string(), token.to_string(), 24),
    );
    m
}

fn stored(user_id: i64, name: &str, class: &str, level: i32, spec: Option<&str>) -> Character {
    Character {
        id: 11,
        user_id,
        name: name.to_string(),
        class: class.to_string(),
        level,
        experience: 42,
        pos_x: 25.0f32.to_bits(),
        pos_y: 1.0f32.to_bits(),
        pos_z: 50.0f32.to_bits(),
        skin_color_r: 1.0f32.to_bits(),
        skin_color_g: 0.8f32.to_bits(),
        skin_color_b: 0.6f32.to_bits(),
        hair_color_r: 0.3f32.to_bits(),
        hair_color_g: 0.2f32.to_bits(),
        hair_color_b: 0.1f32.to_bits(),
        created_at: "2024-01-01T00:00:00+00:00".to_string(),
        last_played: None,
        specialization: spec.map(|s| s.to_string()),
    }
}

fn hero() -> CharacterData {
    CharacterData {
        name: "TestHero".to_string(),
        class: CharacterClass::Ninja,
        appearance: CharacterAppearance::default(),
        level: 1,
        experience: 0,
        specialization: None,
    }
}

fn db_error() -> DbError {
    DbError { message: "locked".to_string() }
}

#[test]
fn create_character_with_valid_token() {
    let sessions = manager_with("tok", 4);
    let mut flow = CreateCharacterFlow::new("tok".to_string(), hero());
    assert!(matches!(flow.step(&sessions, CreateCharacterEvent::Start), CreateCharacterAction::CheckName));
    assert_eq!(flow.user_id, Some(4));
    assert!(matches!(
        flow.step(&sessions, CreateCharacterEvent::NameChecked(Ok(false))),
        CreateCharacterAction::Create { user_id: 4 }
    ));
    assert!(matches!(
        flow.step(&sessions, CreateCharacterEvent::Created(Ok(99))),
        CreateCharacterAction::Respond(ServerMessage::CharacterCreated { character_id: 99 })
    ));
}

#[test]
fn create_character_refusals() {
    let sessions = manager_with("tok", 4);
    let mut flow = CreateCharacterFlow::new("other".to_string(), hero());
    match flow.step(&sessions, CreateCharacterEvent::Start) {
        CreateCharacterAction::Respond(ServerMessage::CharacterCreationFailed { reason }) => {
            assert_eq!(reason, "Invalid or expired token")
        }
        _ => panic!("expected a refusal"),
    }
    match flow.step(&sessions, CreateCharacterEvent::NameChecked(Ok(true))) {
        CreateCharacterAction::Respond(ServerMessage::CharacterCreationFailed { reason }) => {
            assert_eq!(reason, "Character name already exists")
        }
        _ => panic!("expected a refusal"),
    }
    match flow.step(&sessions, CreateCharacterEvent::Created(Err(db_error()))) {
        CreateCharacterAction::Respond(ServerMessage::CharacterCreationFailed { reason }) => {
            assert_eq!(reason, "Failed to create character")
        }
        _ => panic!("expected a refusal"),
    }
}

#[test]
fn select_character_enters_the_world_at_its_position() {
    let mut sessions = manager_with("tok", 4);
    let mut flow = SelectCharacterFlow::new("tok".to_string(), 11);
    assert!(matches!(
        flow.step(&mut sessions, SelectCharacterEvent::Start),
        SelectCharacterAction::LoadCharacter { character_id: 11 }
    ));
    let c = stored(4, "SelectHero", "Ninja", 10, Some("Attentaeter"));
    match flow.step(&mut sessions, SelectCharacterEvent::Loaded(Ok(Some(c)))) {
        SelectCharacterAction::EnterWorld { character, character_id, position, reply } => {
            assert_eq!(character.name, "SelectHero");
            assert_eq!(character.class, CharacterClass::Ninja);
            assert_eq!(character_id, 11);
            assert_eq!(f32::from_bits(position.x), 25.0);
            assert_eq!(f32::from_bits(position.z), 50.0);
            match reply {
                ServerMessage::CharacterSelected {
                    character_id,
                    level,
                    experience,
                    max_health,
                    max_mana,
                    max_stamina,
                    specialization,
                    ..
                } => {
                    assert_eq!(character_id, 11);
                    assert_eq!(level, 10);
                    assert_eq!(experience, 42);
                    assert_eq!((max_health, max_mana, max_stamina), (208, 172, 235));
                    assert_eq!(specialization, Some(Specialization::Attentaeter));
                }
                _ => panic!("expected CharacterSelected"),
            }
        }
        _ => panic!("expected EnterWorld"),
    }
    assert_eq!(sessions.get_session("tok").unwrap().character_id, Some(11));
}

#[test]
fn select_character_of_another_user_is_refused() {
    let mut sessions = manager_with("tok", 4);
    let mut flow = SelectCharacterFlow::new("tok".to_string(), 11);
    flow.step(&mut sessions, SelectCharacterEvent::Start);
    let c = stored(5, "NotMine", "Krieger", 3, None);
    match flow.step(&mut sessions, SelectCharacterEvent::Loaded(Ok(Some(c)))) {
        SelectCharacterAction::Respond(ServerMessage::CharacterSelectionFailed { reason }) => {
            assert_eq!(reason, "Character does not belong to you")
        }
        _ => panic!("expected a refusal"),
    }
    match flow.step(&mut sessions, SelectCharacterEvent::Loaded(Ok(None))) {
        SelectCharacterAction::Respond(ServerMessage::CharacterSelectionFailed { reason }) => {
            assert_eq!(reason, "Character not found")
        }
        _ => panic!("expected a refusal"),
    }
    assert_eq!(sessions.get_session("tok").unwrap().character_id, None);
}

#[test]
fn delete_character_flow() {
    let sessions = manager_with("tok", 4);
    let flow = DeleteCharacterFlow::new("tok".to_string(), 8);
    assert!(matches!(
        flow.step(&sessions, DeleteCharacterEvent::Start),
        DeleteCharacterAction::Delete { character_id: 8, user_id: 4 }
    ));
    assert!(matches!(
        flow.step(&sessions, DeleteCharacterEvent::Deleted(Ok(true))),
        DeleteCharacterAction::Respond(ServerMessage::CharacterDeleted { character_id: 8 })
    ));
    match flow.step(&sessions, DeleteCharacterEvent::Deleted(Ok(false))) {
        DeleteCharacterAction::Respond(ServerMessage::CharacterDeletionFailed { reason }) => {
            assert_eq!(reason, "Character not found or not owned by you")
        }
        _ => panic!("expected a refusal"),
    }
}

#[test]
fn specialization_refusal_reasons() {
    let low = stored(4, "Low", "Krieger", 3, None);
    assert_eq!(
        specialization_refusal(&low, 4, Specialization::Gladiator),
        Some("You must reach level 5 first (current: 3)".to_string())
    );
    let other = stored(4, "Other", "Krieger", 7, None);
    assert_eq!(specialization_refusal(&other, 5, Specialization::Gladiator),
        Some("Character does not belong to you".to_string()));
    let chosen = stored(4, "Chosen", "Krieger", 7, Some("Gladiator"));
    assert_eq!(
        specialization_refusal(&chosen, 4, Specialization::Leibwaechter),
        Some("You have already chosen a specialization".to_string())
    );
    let sura = stored(4, "Sura", "Sura", 7, None);
    assert_eq!(
        specialization_refusal(&sura, 4, Specialization::Gladiator),
        Some("Specialization Gladiator is not valid for class Sura".to_string())
    );
    assert_eq!(specialization_refusal(&sura, 4, Specialization::DaemonenJaeger), None);
}

#[test]
fn specialization_flow_saves_the_stored_name() {
    let mut sessions = manager_with("tok", 4);
    sessions.get_session_mut("tok").unwrap().set_character(11);
    let mut flow = SpecializationFlow::new("tok".to_string(), Specialization::DaemonenJaeger);
    assert!(matches!(
        flow.step(&sessions, SpecializationEvent::Start),
        SpecializationAction::LoadCharacter { character_id: 11 }
    ));
    let c = stored(4, "Sura", "Sura", 5, None);
    match flow.step(&sessions, SpecializationEvent::Loaded(Ok(Some(c)))) {
        SpecializationAction::SaveSpecialization { character_id, specialization, stored_name } => {
            assert_eq!(character_id, 11);
            assert_eq!(specialization, Specialization::DaemonenJaeger);
            assert_eq!(stored_name, "DaemonenJaeger");
        }
        _ => panic!("expected SaveSpecialization"),
    }
    assert!(matches!(
        flow.step(&sessions, SpecializationEvent::Saved(Ok(()))),
        SpecializationAction::Apply { specialization: Specialization::DaemonenJaeger }
    ));
    match flow.step(&sessions, SpecializationEvent::Saved(Err(db_error()))) {
        SpecializationAction::Respond(ServerMessage::SpecializationFailed { reason }) => {
            assert_eq!(reason, "Failed to save specialization")
        }
        _ => panic!("expected a refusal"),
    }
}

#[test]
fn specialization_needs_a_selected_character() {
    let sessions = manager_with("tok", 4);
    let mut flow = SpecializationFlow::new("tok".to_string(), Specialization::Gladiator);
    match flow.step(&sessions, SpecializationEvent::Start) {
        SpecializationAction::Respond(ServerMessage::SpecializationFailed { reason }) => {
            assert_eq!(reason, "No character selected")
        }
        _ => panic!("expected a refusal"),
    }
    let mut flow = SpecializationFlow::new("missing".to_string(), Specialization::Gladiator);
    match flow.step(&sessions, SpecializationEvent::Start) {
        SpecializationAction::Respond(ServerMessage::SpecializationFailed { reason }) => {
            assert_eq!(reason, "Invalid or expired token")
        }
        _ => panic!("expected a refusal"),
    }
}

#[test]
fn stored_character_reads_back() {
    let c = stored(4, "Reader", "Schamane", 6, Some("Lebenshueter"));
    let data = c.to_character_data();
    assert_eq!(data.class, CharacterClass::Schamane);
    assert_eq!(data.level, 6);
    assert_eq!(f32::from_bits(data.appearance.skin_color[1]), 0.8);
    assert_eq!(c.position(), Vec3Bits { x: 25.0f32.to_bits(), y: 1.0f32.to_bits(), z: 50.0f32.to_bits() });
    assert_eq!(c.stored_specialization(), Some(Specialization::Lebenshueter));
    let odd = stored(4, "Odd", "Schamane", 6, Some("Nonsense"));
    assert_eq!(odd.stored_specialization(), None);
}

fn manager_at(token: &str, user_id: i64) -> SessionManager {
    let mut m = SessionManager::new();
    m.add_session(
        token.to_string(),
        SessionData::new_at(user_id, "timed".to_string(), token.to_string(), 1, 0),
    );
    m
}

#[test]
fn flows_check_the_token_at_a_given_time() {
    let hour = mmorpg::session::NANOS_PER_HOUR;
    let mut sessions = manager_at("tok", 6);
    let mut create = CreateCharacterFlow::new("tok".to_string(), hero());
    assert!(matches!(
        create.step_at(&sessions, CreateCharacterEvent::Start, hour / 2),
        CreateCharacterAction::CheckName
    ));
    let mut late = CreateCharacterFlow::new("tok".to_string(), hero());
    match late.step_at(&sessions, CreateCharacterEvent::Start, 2 * hour) {
        CreateCharacterAction::Respond(ServerMessage::CharacterCreationFailed { reason }) => {
            assert_eq!(reason, "Invalid or expired token")
        }
        _ => panic!("expected a refusal"),
    }
    let delete = DeleteCharacterFlow::new("tok".to_string(), 3);
    assert!(matches!(
        delete.step_at(&sessions, DeleteCharacterEvent::Start, hour),
        DeleteCharacterAction::Delete { character_id: 3, user_id: 6 }
    ));
    assert!(matches!(
        delete.step_at(&sessions, DeleteCharacterEvent::Start, hour + 1),
        DeleteCharacterAction::Respond(ServerMessage::CharacterDeletionFailed { .. })
    ));
    let mut select = SelectCharacterFlow::new("tok".to_string(), 3);
    assert!(matches!(
        select.step_at(&mut sessions, SelectCharacterEvent::Start, 3 * hour),
        SelectCharacterAction::Respond(ServerMessage::CharacterSelectionFailed { .. })
    ));
    let mut spec = SpecializationFlow::new("tok".to_string(), Specialization::Gladiator);
    match spec.step_at(&sessions, SpecializationEvent::Start, 0) {
        SpecializationAction::Respond(ServerMessage::SpecializationFailed { reason }) => {
            assert_eq!(reason, "No character selected")
        }
        _ => panic!("expected a refusal"),
    }
}
