use mmorpg::class::CharacterClass;
use mmorpg::client::{
    handle_escape, on_auth_response, press_pause_button, press_selection_button, AuthState, GameState, NpcDialogState,
    character_card, roster_placeholder, trainer_class, trainer_dialog, trainer_texts, DevModeState, NpcType, PauseButton,
    SelectionAction, SelectionButton, TrainerDialog,
};
use mmorpg::collision::{collision_events, ColliderInfo, CollisionEvent, CollisionType};
use mmorpg::specialization::Specialization;
use mmorpg::collision::CollisionLayer;
use mmorpg::input::{
    name_text_for_key, text_for_key, without_last_char, CharacterBuilder, InputField, Key, LoginForm,
};
use mmorpg::protocol::{AuthMessage, AuthResponse, CharacterSummary};
use mmorpg::ui_stack::{UILayer, UILayerStack, UILayerType};

fn kinds(stack: &UILayerStack) -> Vec<UILayerType> {
    let mut present = Vec::new();
    for t in [UILayerType::GameUI, UILayerType::PauseMenu, UILayerType::Settings, UILayerType::NpcDialog] {
        if stack.has_layer(t) {
            present.push(t);
        }
    }
    present
}

#[test]
fn layers_keep_priority_order() {
    let mut stack = UILayerStack::new();
    assert!(stack.is_empty());
    stack.push_layer(UILayerType::NpcDialog);
    stack.push_layer(UILayerType::GameUI);
    stack.push_layer(UILayerType::Settings);
    stack.push_layer(UILayerType::GameUI);
    assert_eq!(stack.len(), 3);
    assert_eq!(stack.top_layer().unwrap().layer_type, UILayerType::NpcDialog);
    let top = stack.pop_layer().unwrap();
    assert_eq!(top, UILayer::new(UILayerType::NpcDialog));
    assert_eq!(stack.top_layer().unwrap().layer_type, UILayerType::Settings);
    stack.remove_layer(UILayerType::Settings);
    assert_eq!(stack.top_layer().unwrap().layer_type, UILayerType::GameUI);
    assert!(!stack.has_layer(UILayerType::Settings));
    stack.clear();
    assert!(stack.pop_layer().is_none());
    assert_eq!(UILayer::new(UILayerType::Settings).priority, 250);
    assert!(!UILayer::new(UILayerType::GameUI).blocks_input);
}

#[test]
fn escape_walks_back_through_the_menus() {
    let mut stack = UILayerStack::new();
    let mut dialog = NpcDialogState::new();
    stack.push_layer(UILayerType::GameUI);
    // In the game, Escape pauses.
    assert_eq!(handle_escape(&mut stack, &mut dialog, GameState::InGame), Some(GameState::Paused));
    assert!(stack.has_layer(UILayerType::PauseMenu));
    stack.push_layer(UILayerType::Settings);
    assert_eq!(handle_escape(&mut stack, &mut dialog, GameState::Settings), Some(GameState::Paused));
    assert_eq!(handle_escape(&mut stack, &mut dialog, GameState::Paused), Some(GameState::InGame));
    assert_eq!(kinds(&stack), vec![UILayerType::GameUI]);
    // Outside the game Escape does nothing.
    assert_eq!(handle_escape(&mut stack, &mut dialog, GameState::Login), None);
    assert_eq!(stack.len(), 1);
}

#[test]
fn escape_closes_the_dialog_first() {
    let mut stack = UILayerStack::new();
    let mut dialog = NpcDialogState::default();
    stack.push_layer(UILayerType::GameUI);
    dialog.open_dialog(17, NpcType::SpecializationTrainer, "Meister".to_string());
    stack.push_layer(UILayerType::NpcDialog);
    assert!(dialog.active);
    assert_eq!(handle_escape(&mut stack, &mut dialog, GameState::InGame), None);
    assert!(!dialog.active);
    assert_eq!(dialog.npc_entity, None);
    assert_eq!(dialog.npc_name, "");
    assert!(!stack.has_layer(UILayerType::NpcDialog));
}

#[test]
fn auth_state_login_and_selection() {
    let mut auth = AuthState::new();
    assert!(!auth.is_authenticated());
    let list = vec![
        CharacterSummary {
            id: 1,
            name: "A".to_string(),
            class: CharacterClass::Sura,
            level: 1,
            last_played: None,
            specialization: None,
        },
        CharacterSummary {
            id: 2,
            name: "B".to_string(),
            class: CharacterClass::Ninja,
            level: 9,
            last_played: None,
            specialization: None,
        },
    ];
    auth.login("tok".to_string(), "user".to_string(), list);
    assert!(auth.is_authenticated());
    assert_eq!(auth.get_token(), Some("tok"));
    assert!(auth.get_selected_character().is_none());
    auth.select_character(2);
    assert_eq!(auth.get_selected_character().unwrap().name, "B");
    auth.select_character(5);
    assert!(auth.get_selected_character().is_none());
    auth.logout();
    assert!(!auth.is_authenticated());
    assert_eq!(auth.get_token(), None);
    assert!(auth.characters.is_empty());
}

#[test]
fn collision_layers() {
    assert!(CollisionLayer::Player.can_collide_with(&CollisionLayer::World));
    assert!(CollisionLayer::Item.can_collide_with(&CollisionLayer::World));
    assert!(!CollisionLayer::Item.can_collide_with(&CollisionLayer::Player));
    assert!(!CollisionLayer::Projectile.can_collide_with(&CollisionLayer::Projectile));
    assert!(CollisionLayer::Monster.can_collide_with(&CollisionLayer::Projectile));
    assert!(CollisionLayer::Player.can_collide_with(&CollisionLayer::Player));
    assert!(!CollisionLayer::NPC.can_collide_with(&CollisionLayer::NPC));
    assert!(CollisionLayer::World.can_collide_with(&CollisionLayer::Item));
}

#[test]
fn key_texts() {
    assert_eq!(text_for_key(Key::KeyQ, false), Some("q"));
    assert_eq!(text_for_key(Key::KeyQ, true), Some("Q"));
    assert_eq!(text_for_key(Key::Digit2, true), Some("@"));
    assert_eq!(text_for_key(Key::Backslash, false), Some("\\"));
    assert_eq!(text_for_key(Key::Tab, false), None);
    assert_eq!(name_text_for_key(Key::Digit2, true), Some("2"));
    assert_eq!(name_text_for_key(Key::Period, false), None);
    assert_eq!(without_last_char(&"héé".to_string()), "hé");
    assert_eq!(without_last_char(&String::new()), "");
}

fn type_text(form: &mut LoginForm, keys: &[(Key, bool)]) {
    for &(k, shift) in keys {
        form.press_key(k, shift);
    }
}

#[test]
fn login_form_typing_and_tab() {
    let mut form = LoginForm::new();
    type_text(&mut form, &[(Key::KeyB, true), (Key::KeyO, false), (Key::KeyB, false)]);
    assert_eq!(form.username, "Bob");
    form.press_key(Key::Backspace, false);
    assert_eq!(form.username, "Bo");
    form.press_key(Key::Tab, false);
    assert_eq!(form.active_field, InputField::Password);
    type_text(&mut form, &[(Key::Digit1, true), (Key::KeyX, false)]);
    assert_eq!(form.password, "!x");
    // Without registration, Tab goes back to the username.
    form.press_key(Key::Tab, false);
    assert_eq!(form.active_field, InputField::Username);
    form.press_key(Key::Enter, false);
    assert_eq!(form.username, "Bo");
    form.switch_mode();
    assert!(form.is_register_mode);
    form.press_key(Key::Tab, false);
    form.press_key(Key::Tab, false);
    assert_eq!(form.active_field, InputField::Email);
    form.press_key(Key::Tab, false);
    assert_eq!(form.active_field, InputField::Username);
    form.focus(InputField::Email);
    assert_eq!(form.active_field, InputField::Email);
}

#[test]
fn login_form_limits_each_field() {
    let mut form = LoginForm::new();
    for _ in 0..25 {
        form.press_key(Key::KeyA, false);
    }
    assert_eq!(form.username.len(), 20);
    form.focus(InputField::Password);
    for _ in 0..40 {
        form.press_key(Key::KeyB, false);
    }
    assert_eq!(form.password.len(), 30);
    form.focus(InputField::Email);
    for _ in 0..60 {
        form.press_key(Key::KeyC, false);
    }
    assert_eq!(form.email.len(), 50);
}

#[test]
fn login_form_requests() {
    let mut form = LoginForm::new();
    form.username = "testuser".to_string();
    form.password = "password123".to_string();
    match form.auth_message() {
        AuthMessage::Login { username, password } => {
            assert_eq!(username, "testuser");
            assert_eq!(password, "password123");
        }
        _ => panic!("expected a login"),
    }
    form.switch_mode();
    match form.auth_message() {
        AuthMessage::Register { email, .. } => assert_eq!(email, None),
        _ => panic!("expected a registration"),
    }
    form.email = "test@example.com".to_string();
    match form.auth_message() {
        AuthMessage::Register { email, .. } => assert_eq!(email.as_deref(), Some("test@example.com")),
        _ => panic!("expected a registration"),
    }
}

#[test]
fn login_form_status_lines() {
    let mut form = LoginForm::new();
    form.switch_mode();
    form.on_auth_response(&AuthResponse::RegisterFailed { reason: "Username already exists".to_string() });
    assert_eq!(form.status_message, "Registration failed: Username already exists");
    assert!(form.is_register_mode);
    form.on_auth_response(&AuthResponse::RegisterSuccess);
    assert_eq!(form.status_message, "Account created! Please login.");
    assert!(!form.is_register_mode);
    form.on_auth_response(&AuthResponse::LoginFailed { reason: "Invalid username or password".to_string() });
    assert_eq!(form.status_message, "Login failed: Invalid username or password");
    form.on_auth_response(&AuthResponse::LoginSuccess { token: "t".to_string(), characters: vec![] });
    assert_eq!(form.status_message, "Success! Loading world...");
    form.switch_mode();
    assert_eq!(form.status_message, "");
}

#[test]
fn character_name_editing() {
    let mut b = CharacterBuilder::new();
    assert_eq!(b.class, CharacterClass::Krieger);
    assert_eq!(b.name, "Hero");
    for _ in 0..4 {
        b.press_key(Key::Backspace, false);
    }
    assert_eq!(b.name, "");
    b.press_key(Key::KeyT, true);
    b.press_key(Key::KeyO, false);
    b.press_key(Key::Space, false);
    b.press_key(Key::Digit7, true);
    b.press_key(Key::Period, false);
    assert_eq!(b.name, "To 7");
    for _ in 0..30 {
        b.press_key(Key::KeyZ, false);
    }
    assert_eq!(b.name.len(), 20);
    b.press_key(Key::Space, false);
    assert_eq!(b.name.len(), 20);
    b.select_class(CharacterClass::Schamane);
    let data = b.character_data();
    assert_eq!(data.class, CharacterClass::Schamane);
    assert_eq!(data.level, 1);
    assert_eq!(data.experience, 0);
    assert!(data.specialization.is_none());
    assert_eq!(data.name, b.name);
}

#[test]
fn empty_name_becomes_hero() {
    let mut b = CharacterBuilder::new();
    b.select_class(CharacterClass::Ninja);
    b.name.clear();
    let data = b.character_data();
    assert_eq!(data.name, "Hero");
    assert_eq!(data.class, CharacterClass::Ninja);
    assert_eq!(f32::from_bits(data.appearance.hair_color[0]), 0.3);
}

#[test]
fn login_form_displays() {
    let mut form = LoginForm::new();
    assert_eq!(form.field_display(InputField::Username), "|");
    assert_eq!(form.field_display(InputField::Password), "");
    form.username = "Bob".to_string();
    form.password = "abc".to_string();
    assert_eq!(form.field_display(InputField::Username), "Bob|");
    assert_eq!(form.field_display(InputField::Password), "●●●");
    form.focus(InputField::Password);
    assert_eq!(form.field_display(InputField::Username), "Bob");
    assert_eq!(form.field_display(InputField::Password), "●●●|");
    form.email = "a@b".to_string();
    assert_eq!(form.field_display(InputField::Email), "a@b");
    assert_eq!(form.submit_label(), "⚔ ENTER REALM ⚔");
    form.switch_mode();
    assert_eq!(form.submit_label(), "⚔ CREATE ACCOUNT ⚔");
}

#[test]
fn name_field_display() {
    let mut b = CharacterBuilder::new();
    assert_eq!(b.name_display(true), "Hero|");
    b.name.clear();
    assert_eq!(b.name_display(false), "Hero");
    b.press_key(Key::KeyX, true);
    assert_eq!(b.name_display(true), "X|");
    assert_eq!(b.name_display(false), "X");
}

#[test]
fn pause_menu_buttons() {
    let mut auth = AuthState::new();
    auth.login("tok".to_string(), "user".to_string(), vec![]);
    assert_eq!(press_pause_button(PauseButton::Resume, &mut auth), Some(GameState::InGame));
    assert_eq!(press_pause_button(PauseButton::Settings, &mut auth), Some(GameState::Settings));
    assert_eq!(press_pause_button(PauseButton::MainMenu, &mut auth), Some(GameState::CharacterSelection));
    assert_eq!(press_pause_button(PauseButton::QuitGame, &mut auth), None);
    assert!(auth.is_authenticated());
    assert_eq!(press_pause_button(PauseButton::Logout, &mut auth), Some(GameState::Login));
    assert!(!auth.is_authenticated());
}

#[test]
fn selection_buttons_wait_for_the_time() {
    let mut auth = AuthState::new();
    assert!(matches!(
        press_selection_button(SelectionButton::SelectCharacter(3), &mut auth, true),
        SelectionAction::Nothing
    ));
    auth.login("tok".to_string(), "user".to_string(), vec![]);
    assert!(matches!(
        press_selection_button(SelectionButton::SelectCharacter(3), &mut auth, false),
        SelectionAction::Nothing
    ));
    assert_eq!(auth.selected_character_id, None);
    match press_selection_button(SelectionButton::SelectCharacter(3), &mut auth, true) {
        SelectionAction::RequestSelection { token, character_id } => {
            assert_eq!(token, "tok");
            assert_eq!(character_id, 3);
        }
        _ => panic!("expected a selection request"),
    }
    assert_eq!(auth.selected_character_id, Some(3));
    assert!(matches!(
        press_selection_button(SelectionButton::NewCharacter, &mut auth, false),
        SelectionAction::Nothing
    ));
    assert!(matches!(
        press_selection_button(SelectionButton::NewCharacter, &mut auth, true),
        SelectionAction::SwitchTo(GameState::CharacterCreation)
    ));
    assert!(matches!(press_selection_button(SelectionButton::QuitGame, &mut auth, true), SelectionAction::Quit));
    assert!(matches!(
        press_selection_button(SelectionButton::Logout, &mut auth, true),
        SelectionAction::SwitchTo(GameState::Login)
    ));
    assert!(auth.token.is_none());
}

#[test]
fn login_answer_leads_to_selection() {
    let mut auth = AuthState::new();
    assert_eq!(on_auth_response(&mut auth, AuthResponse::LoginFailed { reason: "x".to_string() }), None);
    assert!(!auth.is_authenticated());
    assert_eq!(on_auth_response(&mut auth, AuthResponse::RegisterSuccess), None);
    let next = on_auth_response(
        &mut auth,
        AuthResponse::LoginSuccess { token: "tok".to_string(), characters: vec![] },
    );
    assert_eq!(next, Some(GameState::CharacterSelection));
    assert_eq!(auth.get_token(), Some("tok"));
    assert_eq!(auth.username.as_deref(), Some("user"));
}

#[test]
fn dev_mode_starts_on_and_toggles() {
    let mut dev = DevModeState::default();
    assert!(dev.enabled);
    dev.toggle();
    assert!(!dev.enabled);
    dev.toggle();
    assert!(dev.enabled);
}

#[test]
fn trainer_offers_the_class_specializations() {
    assert_eq!(trainer_dialog(4, None, Some(CharacterClass::Sura)), TrainerDialog::NeedLevel5);
    assert_eq!(
        trainer_dialog(5, Some(Specialization::Gladiator), Some(CharacterClass::Krieger)),
        TrainerDialog::AlreadyChosen(Specialization::Gladiator)
    );
    assert_eq!(
        trainer_dialog(7, None, Some(CharacterClass::Sura)),
        TrainerDialog::Offer(Specialization::DaemonenJaeger, Specialization::Blutkrieger)
    );
    assert_eq!(trainer_dialog(7, None, None), TrainerDialog::ClassUnknown);
    let (title, message, error) = trainer_texts(TrainerDialog::AlreadyChosen(Specialization::Lebenshueter));
    assert_eq!(title, "Meister der Künste");
    assert_eq!(
        message,
        "Du hast bereits eine Spezialisierung gewählt:\n\nLebenshüter\n\nDieser Pfad ist nun dein Schicksal."
    );
    assert_eq!(error, None);
    let (title, _, error) = trainer_texts(TrainerDialog::ClassUnknown);
    assert_eq!(title, "Wähle deine Spezialisierung");
    assert!(error.unwrap().starts_with("Fehler"));
}

#[test]
fn trainer_finds_the_class() {
    let mut auth = AuthState::new();
    assert_eq!(trainer_class(&auth), None);
    auth.login(
        "t".to_string(),
        "u".to_string(),
        vec![CharacterSummary {
            id: 8,
            name: "N".to_string(),
            class: CharacterClass::Ninja,
            level: 6,
            last_played: None,
            specialization: None,
        }],
    );
    auth.select_character(8);
    assert_eq!(trainer_class(&auth), Some(CharacterClass::Ninja));
    auth.class = Some(CharacterClass::Schamane);
    assert_eq!(trainer_class(&auth), Some(CharacterClass::Schamane));
}

fn info(entity: u64, layer: CollisionLayer, t: CollisionType) -> ColliderInfo {
    ColliderInfo { entity, layer, collision_type: t }
}

#[test]
fn collision_events_for_new_contacts() {
    let colliders = vec![
        info(1, CollisionLayer::Player, CollisionType::Dynamic),
        info(2, CollisionLayer::World, CollisionType::Static),
        info(3, CollisionLayer::NPC, CollisionType::Trigger),
        info(4, CollisionLayer::NPC, CollisionType::Dynamic),
        info(5, CollisionLayer::Player, CollisionType::Dynamic),
    ];
    let pairs = vec![(1, 2), (2, 1), (1, 1), (1, 3), (3, 4), (1, 9), (5, 1)];
    let touching = vec![true, true, true, true, true, true, true];
    let previous = vec![(1, 5)];
    let (events, checked) = collision_events(&colliders, &pairs, &touching, &previous);
    assert_eq!(
        events,
        vec![
            CollisionEvent::CollisionStarted { entity_a: 1, entity_b: 2, pair: 0 },
            CollisionEvent::TriggerEntered { trigger: 3, entered_by: 1, pair: 3 },
        ]
    );
    assert_eq!(checked, vec![(1, 2), (1, 3), (3, 4), (1, 9), (1, 5)]);
    let (events, _) = collision_events(&colliders, &vec![(1, 2)], &vec![false], &vec![]);
    assert!(events.is_empty());
}

#[test]
fn character_cards_and_placeholder() {
    let mut auth = AuthState::new();
    let (head, hint) = roster_placeholder(&auth).unwrap();
    assert_eq!(head, "📜 Keine Helden gefunden 📜");
    assert!(hint.starts_with("Erschaffe"));
    let c = CharacterSummary {
        id: 1,
        name: "Hilda".to_string(),
        class: CharacterClass::Schamane,
        level: 42,
        last_played: Some("2024-05-01T10:00:00+00:00".to_string()),
        specialization: None,
    };
    let card = character_card(&c);
    assert_eq!(card.name, "Hilda");
    assert_eq!(card.level, "Lvl 42");
    assert_eq!(card.class, "⚔ Klasse: Schamane");
    assert_eq!(card.last_played.as_deref(), Some("📅 Zuletzt gespielt: 2024-05-01T10:00:00+00:00"));
    let fresh = CharacterSummary { last_played: None, level: 1, ..c.clone() };
    assert_eq!(character_card(&fresh).last_played, None);
    assert_eq!(character_card(&fresh).level, "Lvl 1");
    auth.login("t".to_string(), "u".to_string(), vec![c]);
    assert!(roster_placeholder(&auth).is_none());
}
