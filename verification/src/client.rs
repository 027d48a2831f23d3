//! State that the game client keeps: the screen it shows, the login, the NPC dialog, and
//! what the Escape key does.

use vstd::prelude::*;
use crate::class::{CharacterClass, class_name};
use crate::text::{i32_to_decimal, spec_decimal};
use crate::protocol::{AuthResponse, CharacterSummary};
use crate::specialization::{Specialization, spec_display_name, spec_specialization};
use crate::ui_stack::{UILayerStack, UILayerType, spec_kinds, stack_wf};

verus! {

/// The screen the client shows.
#[derive(Debug, Clone, Copy, PartialEq, Eq, Structural)]
pub enum GameState {
    Login,
    CharacterSelection,
    CharacterCreation,
    InGame,
    Paused,
    Settings,
}

impl Default for GameState {
    fn default() -> (r: GameState)
        ensures
            r == GameState::Login,
    {
        GameState::Login
    }
}

/// What a non-player character offers.
#[derive(Debug, Clone, Copy, PartialEq, Eq, Structural)]
pub enum NpcType {
    SpecializationTrainer,
    Merchant,
    QuestGiver,
}

/// The dialog with a non-player character, if one is open. Entities are identified by
/// their 64-bit id.
#[derive(Debug)]
pub struct NpcDialogState {
    pub active: bool,
    pub npc_entity: Option<u64>,
    pub npc_type: Option<NpcType>,
    pub npc_name: String,
}

impl NpcDialogState {
    /// No dialog open.
    pub fn new() -> (r: NpcDialogState)
        ensures
            !r.active,
            r.npc_entity is None,
            r.npc_type is None,
            r.npc_name@ == Seq::<char>::empty(),
    {
        NpcDialogState { active: false, npc_entity: None, npc_type: None, npc_name: String::new() }
    }

    pub fn open_dialog(&mut self, entity: u64, npc_type: NpcType, name: String)
        ensures
            final(self).active,
            final(self).npc_entity == Some(entity),
            final(self).npc_type == Some(npc_type),
            final(self).npc_name == name,
    {
        self.active = true;
        self.npc_entity = Some(entity);
        self.npc_type = Some(npc_type);
        self.npc_name = name;
    }

    pub fn close_dialog(&mut self)
        ensures
            !final(self).active,
            final(self).npc_entity is None,
            final(self).npc_type is None,
            final(self).npc_name@ == Seq::<char>::empty(),
    {
        self.active = false;
        self.npc_entity = None;
        self.npc_type = None;
        self.npc_name = String::new();
    }
}

impl Default for NpcDialogState {
    fn default() -> (r: NpcDialogState)
        ensures
            !r.active,
            r.npc_entity is None,
            r.npc_type is None,
            r.npc_name@ == Seq::<char>::empty(),
    {
        Self::new()
    }
}

/// What the Escape key does: it acts on the topmost layer (closing a dialog, leaving the
/// settings for the pause menu, resuming the game), and in the game with no overlay it
/// opens the pause menu. Returns the screen to switch to, if any.
pub fn handle_escape(stack: &mut UILayerStack, dialog: &mut NpcDialogState, current: GameState) -> (r:
    Option<GameState>)
    ensures
        stack_wf(final(stack)@),
        match (if old(stack)@.len() > 0 { Some(old(stack)@.last().layer_type) } else { None }) {
            Some(UILayerType::NpcDialog) => r is None && !final(dialog).active && spec_kinds(
                final(stack)@,
            ) == spec_kinds(old(stack)@).remove(UILayerType::NpcDialog),
            Some(UILayerType::Settings) => r == Some(GameState::Paused) && spec_kinds(final(stack)@)
                == spec_kinds(old(stack)@).remove(UILayerType::Settings) && *final(dialog) == *old(
                dialog,
            ),
            Some(UILayerType::PauseMenu) => r == Some(GameState::InGame) && spec_kinds(
                final(stack)@,
            ) == spec_kinds(old(stack)@).remove(UILayerType::PauseMenu) && *final(dialog) == *old(
                dialog,
            ),
            _ => *final(dialog) == *old(dialog) && if current == GameState::InGame {
                r == Some(GameState::Paused) && spec_kinds(final(stack)@) == spec_kinds(
                    old(stack)@,
                ).insert(UILayerType::PauseMenu)
            } else {
                r is None && final(stack)@ == old(stack)@
            },
        },
{
    let top = match stack.top_layer() {
        Some(layer) => Some(layer.layer_type),
        None => None,
    };
    match top {
        Some(UILayerType::NpcDialog) => {
            dialog.close_dialog();
            stack.remove_layer(UILayerType::NpcDialog);
            None
        },
        Some(UILayerType::Settings) => {
            stack.remove_layer(UILayerType::Settings);
            Some(GameState::Paused)
        },
        Some(UILayerType::PauseMenu) => {
            stack.remove_layer(UILayerType::PauseMenu);
            Some(GameState::InGame)
        },
        _ => {
            if current == GameState::InGame {
                stack.push_layer(UILayerType::PauseMenu);
                Some(GameState::Paused)
            } else {
                None
            }
        },
    }
}

/// The client's login: the token, the user's characters and the one selected.
#[derive(Debug)]
pub struct AuthState {
    pub token: Option<String>,
    pub username: Option<String>,
    pub characters: Vec<CharacterSummary>,
    pub selected_character_id: Option<i64>,
    pub class: Option<CharacterClass>,
    pub specialization: Option<Specialization>,
}

/// Position of the first character with id `id`, if any.
pub open spec fn spec_first_with_id(s: Seq<CharacterSummary>, id: i64) -> Option<int>
    decreases s.len(),
{
    if s.len() == 0 {
        None
    } else if s[0].id == id {
        Some(0)
    } else {
        match spec_first_with_id(s.drop_first(), id) {
            Some(i) => Some(i + 1),
            None => None,
        }
    }
}

proof fn lemma_first_with_id(s: Seq<CharacterSummary>, id: i64, i: int)
    requires
        0 <= i <= s.len(),
        forall|k: int| 0 <= k < i ==> s[k].id != id,
    ensures
        i < s.len() && s[i].id == id ==> spec_first_with_id(s, id) == Some(i),
        i == s.len() ==> spec_first_with_id(s, id) is None,
    decreases i,
{
    if i > 0 {
        lemma_first_with_id(s.drop_first(), id, i - 1);
    } else if s.len() > 0 {
        if i == s.len() {
        }
    }
}

impl AuthState {
    /// Logged out, with no characters.
    pub fn new() -> (r: AuthState)
        ensures
            r.token is None,
            r.username is None,
            r.characters@.len() == 0,
            r.selected_character_id is None,
            r.class is None,
            r.specialization is None,
    {
        AuthState {
            token: None,
            username: None,
            characters: Vec::new(),
            selected_character_id: None,
            class: None,
            specialization: None,
        }
    }

    pub fn login(&mut self, token: String, username: String, characters: Vec<CharacterSummary>)
        ensures
            final(self).token == Some(token),
            final(self).username == Some(username),
            final(self).characters == characters,
            final(self).selected_character_id == old(self).selected_character_id,
            final(self).class == old(self).class,
            final(self).specialization == old(self).specialization,
    {
        self.token = Some(token);
        self.username = Some(username);
        self.characters = characters;
    }

    /// Forgets the login and everything that came with it.
    pub fn logout(&mut self)
        ensures
            final(self).token is None,
            final(self).username is None,
            final(self).characters@.len() == 0,
            final(self).selected_character_id is None,
            final(self).class is None,
            final(self).specialization is None,
    {
        self.token = None;
        self.username = None;
        self.characters.clear();
        self.selected_character_id = None;
        self.class = None;
        self.specialization = None;
    }

    pub fn select_character(&mut self, character_id: i64)
        ensures
            final(self).selected_character_id == Some(character_id),
            final(self).token == old(self).token,
            final(self).username == old(self).username,
            final(self).characters == old(self).characters,
            final(self).class == old(self).class,
            final(self).specialization == old(self).specialization,
    {
        self.selected_character_id = Some(character_id);
    }

    /// The first character with the selected id, if one is selected and listed.
    pub fn get_selected_character(&self) -> (r: Option<&CharacterSummary>)
        ensures
            match self.selected_character_id {
                Some(id) => match spec_first_with_id(self.characters@, id) {
                    Some(i) => r == Some(&self.characters@[i]),
                    None => r is None,
                },
                None => r is None,
            },
    {
        let character_id = match self.selected_character_id {
            Some(id) => id,
            None => {
                return None;
            },
        };
        let mut i: usize = 0;
        while i < self.characters.len()
            invariant
                i <= self.characters@.len(),
                self.selected_character_id == Some(character_id),
                forall|k: int| 0 <= k < i ==> self.characters@[k].id != character_id,
            decreases self.characters@.len() - i,
        {
            if self.characters[i].id == character_id {
                proof {
                    lemma_first_with_id(self.characters@, character_id, i as int);
                }
                return Some(&self.characters[i]);
            }
            i = i + 1;
        }
        proof {
            lemma_first_with_id(self.characters@, character_id, i as int);
        }
        None
    }

    pub fn is_authenticated(&self) -> (r: bool)
        ensures
            r == self.token is Some,
    {
        self.token.is_some()
    }

    pub fn get_token(&self) -> (r: Option<&str>)
        ensures
            r is Some <==> self.token is Some,
            r matches Some(t) ==> t@ == self.token.unwrap()@,
    {
        match &self.token {
            Some(t) => Some(t.as_str()),
            None => None,
        }
    }
}

impl Default for AuthState {
    fn default() -> (r: AuthState)
        ensures
            r.token is None,
            r.username is None,
            r.characters@.len() == 0,
            r.selected_character_id is None,
            r.class is None,
            r.specialization is None,
    {
        Self::new()
    }
}

} // verus!

verus! {

/// The buttons of the pause menu.
#[derive(Debug, Clone, Copy, PartialEq, Eq, Structural)]
pub enum PauseButton {
    Resume,
    Settings,
    MainMenu,
    Logout,
    QuitGame,
}

/// What a button of the pause menu does: the screen to switch to, or `None` for quitting
/// the game. Logging out forgets the login.
pub fn press_pause_button(button: PauseButton, auth: &mut AuthState) -> (r: Option<GameState>)
    ensures
        r == match button {
            PauseButton::Resume => Some(GameState::InGame),
            PauseButton::Settings => Some(GameState::Settings),
            PauseButton::MainMenu => Some(GameState::CharacterSelection),
            PauseButton::Logout => Some(GameState::Login),
            PauseButton::QuitGame => None,
        },
        button == PauseButton::Logout ==> final(auth).token is None && final(auth).username is None
            && final(auth).characters@.len() == 0 && final(auth).selected_character_id is None
            && final(auth).class is None && final(auth).specialization is None,
        button != PauseButton::Logout ==> *final(auth) == *old(auth),
{
    match button {
        PauseButton::Resume => Some(GameState::InGame),
        PauseButton::Settings => Some(GameState::Settings),
        PauseButton::MainMenu => Some(GameState::CharacterSelection),
        PauseButton::Logout => {
            auth.logout();
            Some(GameState::Login)
        },
        PauseButton::QuitGame => None,
    }
}

/// The buttons of the character selection screen.
#[derive(Debug, Clone, Copy, PartialEq, Eq, Structural)]
pub enum SelectionButton {
    SelectCharacter(i64),
    NewCharacter,
    Logout,
    QuitGame,
}

/// What the character selection screen does after a button.
#[derive(Debug)]
pub enum SelectionAction {
    /// Ask the server to select the character with this token.
    RequestSelection { token: String, character_id: i64 },
    SwitchTo(GameState),
    Quit,
    Nothing,
}

/// Handles a button of the character selection screen. Selecting or creating a character
/// waits until the time of day is known; selecting needs a login, and remembers the
/// character chosen.
pub fn press_selection_button(button: SelectionButton, auth: &mut AuthState, time_synced: bool) -> (r:
    SelectionAction)
    ensures
        match button {
            SelectionButton::SelectCharacter(id) => if time_synced && old(auth).token is Some {
                &&& r matches SelectionAction::RequestSelection { token, character_id }
                &&& token@ == old(auth).token.unwrap()@
                &&& character_id == id
                &&& final(auth).selected_character_id == Some(id)
                &&& final(auth).token == old(auth).token
                &&& final(auth).username == old(auth).username
                &&& final(auth).characters == old(auth).characters
                &&& final(auth).class == old(auth).class
                &&& final(auth).specialization == old(auth).specialization
            } else {
                r is Nothing && *final(auth) == *old(auth)
            },
            SelectionButton::NewCharacter => *final(auth) == *old(auth) && if time_synced {
                r matches SelectionAction::SwitchTo(s) && s == GameState::CharacterCreation
            } else {
                r is Nothing
            },
            SelectionButton::Logout => {
                &&& r matches SelectionAction::SwitchTo(s) && s == GameState::Login
                &&& final(auth).token is None
                &&& final(auth).username is None
                &&& final(auth).characters@.len() == 0
                &&& final(auth).selected_character_id is None
                &&& final(auth).class is None
                &&& final(auth).specialization is None
            },
            SelectionButton::QuitGame => r is Quit && *final(auth) == *old(auth),
        },
{
    match button {
        SelectionButton::SelectCharacter(character_id) => {
            if !time_synced {
                return SelectionAction::Nothing;
            }
            let token = match auth.get_token() {
                Some(t) => String::from_str(t),
                None => {
                    return SelectionAction::Nothing;
                },
            };
            auth.select_character(character_id);
            SelectionAction::RequestSelection { token, character_id }
        },
        SelectionButton::NewCharacter => {
            if time_synced {
                SelectionAction::SwitchTo(GameState::CharacterCreation)
            } else {
                SelectionAction::Nothing
            }
        },
        SelectionButton::Logout => {
            auth.logout();
            SelectionAction::SwitchTo(GameState::Login)
        },
        SelectionButton::QuitGame => SelectionAction::Quit,
    }
}

/// What the client does with the server's answer to a login or registration: a successful
/// login is stored (under the user name "user") and leads to the character selection; every
/// other answer leaves the state as it is.
pub fn on_auth_response(auth: &mut AuthState, response: AuthResponse) -> (r: Option<GameState>)
    ensures
        match response {
            AuthResponse::LoginSuccess { token, characters } => {
                &&& r == Some(GameState::CharacterSelection)
                &&& final(auth).token == Some(token)
                &&& final(auth).username matches Some(u) && u@ == "user"@
                &&& final(auth).characters == characters
                &&& final(auth).selected_character_id == old(auth).selected_character_id
                &&& final(auth).class == old(auth).class
                &&& final(auth).specialization == old(auth).specialization
            },
            _ => r is None && *final(auth) == *old(auth),
        },
{
    match response {
        AuthResponse::LoginSuccess { token, characters } => {
            auth.login(token, String::from_str("user"), characters);
            Some(GameState::CharacterSelection)
        },
        _ => None,
    }
}

/// Whether the developer tools (the panel and the experience keys) are on.
#[derive(Debug, Clone, Copy, PartialEq, Eq, Structural)]
pub struct DevModeState {
    pub enabled: bool,
}

impl Default for DevModeState {
    /// The developer tools are on by default.
    fn default() -> (r: DevModeState)
        ensures
            r.enabled,
    {
        DevModeState { enabled: true }
    }
}

impl DevModeState {
    /// Switches the developer tools on or off.
    pub fn toggle(&mut self)
        ensures
            final(self).enabled == !old(self).enabled,
    {
        self.enabled = !self.enabled;
    }
}

/// What the specialization trainer says to a player.
#[derive(Debug, Clone, Copy, PartialEq, Eq, Structural)]
pub enum TrainerDialog {
    /// The player is below level 5.
    NeedLevel5,
    /// The player has chosen this specialization already.
    AlreadyChosen(Specialization),
    /// The two specializations of the player's class are offered, in index order.
    Offer(Specialization, Specialization),
    /// The choice is open but the player's class is not known.
    ClassUnknown,
}

/// The trainer's answer for a player of `level` who has chosen `chosen` (if anything) and
/// whose class is `class` (if known).
pub open spec fn spec_trainer_dialog(
    level: i32,
    chosen: Option<Specialization>,
    class: Option<CharacterClass>,
) -> TrainerDialog {
    if level < 5 {
        TrainerDialog::NeedLevel5
    } else {
        match chosen {
            Some(s) => TrainerDialog::AlreadyChosen(s),
            None => match class {
                Some(c) => TrainerDialog::Offer(
                    spec_specialization(c, 0).unwrap(),
                    spec_specialization(c, 1).unwrap(),
                ),
                None => TrainerDialog::ClassUnknown,
            },
        }
    }
}

/// Decides what the specialization trainer says: below level 5 the player is sent away, a
/// chosen specialization is named back, and otherwise the two specializations of the class
/// are offered.
pub fn trainer_dialog(level: i32, chosen: Option<Specialization>, class: Option<CharacterClass>) -> (r:
    TrainerDialog)
    ensures
        r == spec_trainer_dialog(level, chosen, class),
{
    if level < 5 {
        TrainerDialog::NeedLevel5
    } else {
        match chosen {
            Some(s) => TrainerDialog::AlreadyChosen(s),
            None => match class {
                Some(c) => {
                    let first = Specialization::from_class_and_index(c, 0);
                    let second = Specialization::from_class_and_index(c, 1);
                    match (first, second) {
                        (Some(a), Some(b)) => TrainerDialog::Offer(a, b),
                        _ => TrainerDialog::ClassUnknown,
                    }
                },
                None => TrainerDialog::ClassUnknown,
            },
        }
    }
}

/// The class the trainer goes by: the one recorded at selection, else that of the selected
/// character in the list.
pub open spec fn spec_trainer_class(auth: AuthState) -> Option<CharacterClass> {
    match auth.class {
        Some(c) => Some(c),
        None => match auth.selected_character_id {
            Some(id) => match spec_first_with_id(auth.characters@, id) {
                Some(i) => Some(auth.characters@[i].class),
                None => None,
            },
            None => None,
        },
    }
}

/// The class of the logged-in player, as the trainer finds it.
pub fn trainer_class(auth: &AuthState) -> (r: Option<CharacterClass>)
    ensures
        r == spec_trainer_class(*auth),
{
    match auth.class {
        Some(c) => Some(c),
        None => match auth.get_selected_character() {
            Some(c) => Some(c.class),
            None => None,
        },
    }
}

/// Title, message and error line of the trainer's dialog.
pub open spec fn spec_trainer_texts(d: TrainerDialog) -> (Seq<char>, Seq<char>, Option<Seq<char>>) {
    match d {
        TrainerDialog::NeedLevel5 => (
            "Meister der Künste"@,
            "Du musst Level 5 erreichen, um eine Spezialisierung zu wählen.\n\nKehre zurück, wenn du stärker geworden bist."@,
            None,
        ),
        TrainerDialog::AlreadyChosen(s) => (
            "Meister der Künste"@,
            "Du hast bereits eine Spezialisierung gewählt:\n\n"@ + spec_display_name(s)
                + "\n\nDieser Pfad ist nun dein Schicksal."@,
            None,
        ),
        TrainerDialog::Offer(_, _) => (
            "Wähle deine Spezialisierung"@,
            "Du hast Level 5 erreicht! Es ist Zeit, deinen Pfad zu wählen.\n\nWähle weise, denn diese Entscheidung ist permanent!"@,
            None,
        ),
        TrainerDialog::ClassUnknown => (
            "Wähle deine Spezialisierung"@,
            "Du hast Level 5 erreicht! Es ist Zeit, deinen Pfad zu wählen.\n\nWähle weise, denn diese Entscheidung ist permanent!"@,
            Some(
                "Fehler: Charakterklasse konnte nicht ermittelt werden.\nBitte logge dich erneut ein."@,
            ),
        ),
    }
}

/// The texts the trainer's dialog shows.
pub fn trainer_texts(d: TrainerDialog) -> (r: (String, String, Option<&'static str>))
    ensures
        r.0@ == spec_trainer_texts(d).0,
        r.1@ == spec_trainer_texts(d).1,
        match spec_trainer_texts(d).2 {
            Some(e) => r.2 matches Some(x) && x@ == e,
            None => r.2 is None,
        },
{
    let choose_title = "Wähle deine Spezialisierung";
    let choose_message = "Du hast Level 5 erreicht! Es ist Zeit, deinen Pfad zu wählen.\n\nWähle weise, denn diese Entscheidung ist permanent!";
    match d {
        TrainerDialog::NeedLevel5 => (
            String::from_str("Meister der Künste"),
            String::from_str(
                "Du musst Level 5 erreichen, um eine Spezialisierung zu wählen.\n\nKehre zurück, wenn du stärker geworden bist.",
            ),
            None,
        ),
        TrainerDialog::AlreadyChosen(s) => {
            let mut message = String::from_str("Du hast bereits eine Spezialisierung gewählt:\n\n");
            message.append(s.name());
            message.append("\n\nDieser Pfad ist nun dein Schicksal.");
            (String::from_str("Meister der Künste"), message, None)
        },
        TrainerDialog::Offer(_, _) => (
            String::from_str(choose_title),
            String::from_str(choose_message),
            None,
        ),
        TrainerDialog::ClassUnknown => (
            String::from_str(choose_title),
            String::from_str(choose_message),
            Some(
                "Fehler: Charakterklasse konnte nicht ermittelt werden.\nBitte logge dich erneut ein.",
            ),
        ),
    }
}

/// The texts on a character's card on the selection screen.
#[derive(Debug, Clone)]
pub struct CharacterCard {
    pub name: String,
    /// "Lvl" and the level.
    pub level: String,
    /// The class line.
    pub class: String,
    /// The line of the last session, when there was one.
    pub last_played: Option<String>,
}

/// The card of a character: its name, "Lvl {level}", "⚔ Klasse: {class}", and
/// "📅 Zuletzt gespielt: {time}" when it was played before.
pub fn character_card(c: &CharacterSummary) -> (r: CharacterCard)
    ensures
        r.name@ == c.name@,
        r.level@ == "Lvl "@ + spec_decimal(c.level as int),
        r.class@ == "⚔ Klasse: "@ + class_name(c.class),
        match c.last_played {
            Some(t) => r.last_played matches Some(x) && x@ == "📅 Zuletzt gespielt: "@ + t@,
            None => r.last_played is None,
        },
{
    let mut level = String::from_str("Lvl ");
    let digits = i32_to_decimal(c.level);
    level.append(digits.as_str());
    let mut class = String::from_str("⚔ Klasse: ");
    class.append(c.class.as_str());
    let last_played = match &c.last_played {
        Some(t) => {
            let mut line = String::from_str("📅 Zuletzt gespielt: ");
            line.append(t.as_str());
            Some(line)
        },
        None => None,
    };
    CharacterCard { name: c.name.clone(), level, class, last_played }
}

/// The heading and the hint that the selection screen shows instead of cards when the user
/// has no characters; nothing when there are some.
pub fn roster_placeholder(auth: &AuthState) -> (r: Option<(&'static str, &'static str)>)
    ensures
        auth.characters@.len() == 0 ==> (r matches Some(p) && p.0@ == "📜 Keine Helden gefunden 📜"@
            && p.1@ == "Erschaffe deinen ersten Charakter, um dein Abenteuer zu beginnen!"@),
        auth.characters@.len() > 0 ==> r is None,
{
    if auth.characters.len() == 0 {
        Some(("📜 Keine Helden gefunden 📜", "Erschaffe deinen ersten Charakter, um dein Abenteuer zu beginnen!"))
    } else {
        None
    }
}

} // verus!
