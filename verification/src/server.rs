//! Requests that the game server answers for a logged-in user: creating, selecting and
//! deleting characters, and choosing a specialization.
//!
//! Like logins, each request is a state machine: the caller performs the database action
//! that a step asks for and hands back its outcome as the next event.

use vstd::prelude::*;
use crate::accounts::DbError;
use crate::characters::{
    Character, SPECIALIZATION_LEVEL, spec_position, spec_stored_specialization,
};
use crate::class::{CharacterClass, class_from_name, class_name};
use crate::clock::{now_nanos, CLOCK_MAX_NANOS};
use crate::leveling::{calculate_stats_for_level, spec_stats_for_level};
use crate::protocol::{CharacterData, ServerMessage, Vec3Bits};
use crate::session::{SessionManager, token_valid};
use crate::specialization::{Specialization, spec_class_of, spec_db_name, spec_display_name};
use crate::text::{i32_to_decimal, spec_decimal};

verus! {

pub open spec fn creation_refused(m: ServerMessage, reason: Seq<char>) -> bool {
    m matches ServerMessage::CharacterCreationFailed { reason: x } && x@ == reason
}

pub open spec fn selection_refused(m: ServerMessage, reason: Seq<char>) -> bool {
    m matches ServerMessage::CharacterSelectionFailed { reason: x } && x@ == reason
}

pub open spec fn deletion_refused(m: ServerMessage, reason: Seq<char>) -> bool {
    m matches ServerMessage::CharacterDeletionFailed { reason: x } && x@ == reason
}

pub open spec fn specialization_refused(m: ServerMessage, reason: Seq<char>) -> bool {
    m matches ServerMessage::SpecializationFailed { reason: x } && x@ == reason
}

// ---------------------------------------------------------------- character creation

pub enum CreateCharacterEvent {
    Start,
    /// Whether the name is taken.
    NameChecked(Result<bool, DbError>),
    /// Id of the new character.
    Created(Result<i64, DbError>),
}

pub enum CreateCharacterAction {
    /// Look up whether the character's name is taken.
    CheckName,
    /// Store the character for this user.
    Create { user_id: i64 },
    Respond(ServerMessage),
}

pub open spec fn create_refuses(a: CreateCharacterAction, reason: Seq<char>) -> bool {
    a matches CreateCharacterAction::Respond(m) && creation_refused(m, reason)
}

fn refuse_creation(reason: &str) -> (r: CreateCharacterAction)
    ensures
        create_refuses(r, reason@),
{
    CreateCharacterAction::Respond(
        ServerMessage::CharacterCreationFailed { reason: String::from_str(reason) },
    )
}

pub struct CreateCharacterFlow {
    pub token: String,
    pub character: CharacterData,
    /// Owner of the new character, once the token has been accepted.
    pub user_id: Option<i64>,
}

/// What one step of creating a character does when the clock reads `now`.
pub open spec fn create_step_post(
    pre: CreateCharacterFlow,
    post: CreateCharacterFlow,
    sessions: SessionManager,
    event: CreateCharacterEvent,
    r: CreateCharacterAction,
    now: int,
) -> bool {
    &&& post.token == pre.token
    &&& post.character == pre.character
    &&& match event {
        CreateCharacterEvent::Start => if token_valid(sessions@, pre.token@, now) {
            r is CheckName && post.user_id == Some(sessions@[pre.token@].user_id)
        } else {
            create_refuses(r, "Invalid or expired token"@) && post.user_id == pre.user_id
        },
        CreateCharacterEvent::NameChecked(Ok(true)) => create_refuses(
            r,
            "Character name already exists"@,
        ) && post.user_id == pre.user_id,
        CreateCharacterEvent::NameChecked(Ok(false)) => post.user_id == pre.user_id
            && match pre.user_id {
            Some(id) => r == (CreateCharacterAction::Create { user_id: id }),
            None => create_refuses(r, "Internal server error"@),
        },
        CreateCharacterEvent::NameChecked(Err(_)) => create_refuses(r, "Internal server error"@)
            && post.user_id == pre.user_id,
        CreateCharacterEvent::Created(Ok(id)) => r matches CreateCharacterAction::Respond(
            ServerMessage::CharacterCreated { character_id },
        ) && character_id == id && post.user_id == pre.user_id,
        CreateCharacterEvent::Created(Err(_)) => create_refuses(r, "Failed to create character"@)
            && post.user_id == pre.user_id,
    }
}

impl CreateCharacterFlow {
    pub fn new(token: String, character: CharacterData) -> (r: Self)
        ensures
            r.token == token,
            r.character == character,
            r.user_id is None,
    {
        CreateCharacterFlow { token, character, user_id: None }
    }

    /// One step of creating a character, with the clock at `now`.
    pub fn step_at(
        &mut self,
        sessions: &SessionManager,
        event: CreateCharacterEvent,
        now: i128,
    ) -> (r: CreateCharacterAction)
        requires
            sessions.wf(),
        ensures
            create_step_post(*old(self), *final(self), *sessions, event, r, now as int),
    {
        match event {
            CreateCharacterEvent::Start => match sessions.validate_token_at(self.token.as_str(), now) {
                Some(session) => {
                    self.user_id = Some(session.user_id);
                    CreateCharacterAction::CheckName
                },
                None => refuse_creation("Invalid or expired token"),
            },
            CreateCharacterEvent::NameChecked(Ok(true)) => refuse_creation(
                "Character name already exists",
            ),
            CreateCharacterEvent::NameChecked(Ok(false)) => match self.user_id {
                Some(user_id) => CreateCharacterAction::Create { user_id },
                None => refuse_creation("Internal server error"),
            },
            CreateCharacterEvent::NameChecked(Err(_)) => refuse_creation("Internal server error"),
            CreateCharacterEvent::Created(Ok(character_id)) => CreateCharacterAction::Respond(
                ServerMessage::CharacterCreated { character_id },
            ),
            CreateCharacterEvent::Created(Err(_)) => refuse_creation("Failed to create character"),
        }
    }

    /// One step of creating a character; the token is checked against the clock.
    pub fn step(&mut self, sessions: &SessionManager, event: CreateCharacterEvent) -> (r:
        CreateCharacterAction)
        requires
            sessions.wf(),
        ensures
            exists|now: int|
                0 <= now <= CLOCK_MAX_NANOS && #[trigger] create_step_post(
                    *old(self),
                    *final(self),
                    *sessions,
                    event,
                    r,
                    now,
                ),
    {
        let now = now_nanos();
        self.step_at(sessions, event, now)
    }
}


// ---------------------------------------------------------------- character selection

pub enum SelectCharacterEvent {
    Start,
    Loaded(Result<Option<Character>, DbError>),
}

pub enum SelectCharacterAction {
    LoadCharacter { character_id: i64 },
    /// Put the character into the world at `position` and send `reply`.
    EnterWorld { character: CharacterData, character_id: i64, position: Vec3Bits, reply: ServerMessage },
    Respond(ServerMessage),
    /// The session went away in the meantime: send nothing.
    Ignore,
}

pub open spec fn select_refuses(a: SelectCharacterAction, reason: Seq<char>) -> bool {
    a matches SelectCharacterAction::Respond(m) && selection_refused(m, reason)
}

fn refuse_selection(reason: &str) -> (r: SelectCharacterAction)
    ensures
        select_refuses(r, reason@),
{
    SelectCharacterAction::Respond(
        ServerMessage::CharacterSelectionFailed { reason: String::from_str(reason) },
    )
}

/// Whether `m` is the answer that selects the stored character `c` under `character_id`:
/// its name, class, position, level, experience, the stats of its level and class, and
/// its stored specialization.
pub open spec fn is_selected_reply(m: ServerMessage, c: Character, id: i64) -> bool {
    let class = class_from_name(c.class@);
    let stats = spec_stats_for_level(c.level as int, class);
    m matches ServerMessage::CharacterSelected {
        character_id,
        character_name,
        character_class,
        position,
        level,
        experience,
        max_health,
        max_mana,
        max_stamina,
        specialization,
    } && character_id == id && character_name@ == c.name@ && character_class == class && position
        == spec_position(c) && level == c.level && experience == c.experience && max_health
        == stats.0 && max_mana == stats.1 && max_stamina == stats.2 && specialization
        == spec_stored_specialization(c)
}

pub struct SelectCharacterFlow {
    pub token: String,
    pub character_id: i64,
    pub user_id: Option<i64>,
}

/// What one step of selecting a character does when the clock reads `now`, with the
/// sessions `s0` before and `s1` after.
pub open spec fn select_step_post(
    pre: SelectCharacterFlow,
    post: SelectCharacterFlow,
    s0: SessionManager,
    s1: SessionManager,
    event: SelectCharacterEvent,
    r: SelectCharacterAction,
    now: int,
) -> bool {
    &&& s1.wf()
    &&& post.token == pre.token
    &&& post.character_id == pre.character_id
    &&& match event {
        SelectCharacterEvent::Start => s1@ == s0@ && if token_valid(s0@, pre.token@, now) {
            r == (SelectCharacterAction::LoadCharacter { character_id: pre.character_id })
                && post.user_id == Some(s0@[pre.token@].user_id)
        } else {
            select_refuses(r, "Invalid or expired token"@) && post.user_id == pre.user_id
        },
        SelectCharacterEvent::Loaded(Ok(Some(c))) => post.user_id == pre.user_id && match pre.user_id {
            None => select_refuses(r, "Internal server error"@) && s1@ == s0@,
            Some(uid) => if c.user_id != uid {
                select_refuses(r, "Character does not belong to you"@) && s1@ == s0@
            } else if s0@.dom().contains(pre.token@) {
                &&& r matches SelectCharacterAction::EnterWorld {
                    character,
                    character_id,
                    position,
                    reply,
                }
                &&& character.name@ == c.name@
                &&& character.class == class_from_name(c.class@)
                &&& character.level == c.level
                &&& character.experience == c.experience
                &&& character.specialization is None
                &&& character_id == pre.character_id
                &&& position == spec_position(c)
                &&& is_selected_reply(reply, c, pre.character_id)
                &&& s1@.dom() == s0@.dom()
                &&& forall|k: Seq<char>|
                    k != pre.token@ && #[trigger] s0@.dom().contains(k) ==> s1@[k] == s0@[k]
                &&& s1@[pre.token@].character_id == Some(pre.character_id)
                &&& s1@[pre.token@].user_id == s0@[pre.token@].user_id
                &&& s1@[pre.token@].expires_at == s0@[pre.token@].expires_at
            } else {
                r is Ignore && s1@ == s0@
            },
        },
        SelectCharacterEvent::Loaded(Ok(None)) => select_refuses(r, "Character not found"@)
            && post.user_id == pre.user_id && s1@ == s0@,
        SelectCharacterEvent::Loaded(Err(_)) => select_refuses(r, "Internal server error"@)
            && post.user_id == pre.user_id && s1@ == s0@,
    }
}

impl SelectCharacterFlow {
    pub fn new(token: String, character_id: i64) -> (r: Self)
        ensures
            r.token == token,
            r.character_id == character_id,
            r.user_id is None,
    {
        SelectCharacterFlow { token, character_id, user_id: None }
    }

    /// One step of selecting a character, with the clock at `now`. Selecting records the
    /// character in the session.
    pub fn step_at(
        &mut self,
        sessions: &mut SessionManager,
        event: SelectCharacterEvent,
        now: i128,
    ) -> (r: SelectCharacterAction)
        requires
            old(sessions).wf(),
            event matches SelectCharacterEvent::Loaded(Ok(Some(c))) ==> c.level > i32::MIN,
        ensures
            select_step_post(
                *old(self),
                *final(self),
                *old(sessions),
                *final(sessions),
                event,
                r,
                now as int,
            ),
    {
        match event {
            SelectCharacterEvent::Start => match sessions.validate_token_at(self.token.as_str(), now) {
                Some(session) => {
                    self.user_id = Some(session.user_id);
                    SelectCharacterAction::LoadCharacter { character_id: self.character_id }
                },
                None => refuse_selection("Invalid or expired token"),
            },
            SelectCharacterEvent::Loaded(Ok(Some(c))) => {
                let user_id = match self.user_id {
                    Some(id) => id,
                    None => {
                        return refuse_selection("Internal server error");
                    },
                };
                if c.user_id != user_id {
                    return refuse_selection("Character does not belong to you");
                }
                let position = c.position();
                match sessions.get_session_mut(self.token.as_str()) {
                    Some(session) => {
                        session.set_character(self.character_id);
                        proof {
                            assert(sessions@.dom() =~= old(sessions)@.dom());
                        }
                        let character = c.to_character_data();
                        let class = CharacterClass::from_db_str(c.class.as_str());
                        let (max_health, max_mana, max_stamina) = calculate_stats_for_level(
                            c.level,
                            &class,
                        );
                        let specialization = c.stored_specialization();
                        let reply = ServerMessage::CharacterSelected {
                            character_id: self.character_id,
                            character_name: c.name.clone(),
                            character_class: class,
                            position,
                            level: c.level,
                            experience: c.experience,
                            max_health,
                            max_mana,
                            max_stamina,
                            specialization,
                        };
                        SelectCharacterAction::EnterWorld {
                            character,
                            character_id: self.character_id,
                            position,
                            reply,
                        }
                    },
                    None => SelectCharacterAction::Ignore,
                }
            },
            SelectCharacterEvent::Loaded(Ok(None)) => refuse_selection("Character not found"),
            SelectCharacterEvent::Loaded(Err(_)) => refuse_selection("Internal server error"),
        }
    }

    /// One step of selecting a character; the token is checked against the clock.
    pub fn step(&mut self, sessions: &mut SessionManager, event: SelectCharacterEvent) -> (r:
        SelectCharacterAction)
        requires
            old(sessions).wf(),
            event matches SelectCharacterEvent::Loaded(Ok(Some(c))) ==> c.level > i32::MIN,
        ensures
            exists|now: int|
                0 <= now <= CLOCK_MAX_NANOS && #[trigger] select_step_post(
                    *old(self),
                    *final(self),
                    *old(sessions),
                    *final(sessions),
                    event,
                    r,
                    now,
                ),
    {
        let now = now_nanos();
        self.step_at(sessions, event, now)
    }
}

// ---------------------------------------------------------------- character deletion

pub enum DeleteCharacterEvent {
    Start,
    /// Whether a character of that id and owner was deleted.
    Deleted(Result<bool, DbError>),
}

pub enum DeleteCharacterAction {
    /// Delete the character if it belongs to the user.
    Delete { character_id: i64, user_id: i64 },
    Respond(ServerMessage),
}

pub open spec fn delete_refuses(a: DeleteCharacterAction, reason: Seq<char>) -> bool {
    a matches DeleteCharacterAction::Respond(m) && deletion_refused(m, reason)
}

fn refuse_deletion(reason: &str) -> (r: DeleteCharacterAction)
    ensures
        delete_refuses(r, reason@),
{
    DeleteCharacterAction::Respond(
        ServerMessage::CharacterDeletionFailed { reason: String::from_str(reason) },
    )
}

pub struct DeleteCharacterFlow {
    pub token: String,
    pub character_id: i64,
}

/// What one step of deleting a character answers when the clock reads `now`.
pub open spec fn delete_step_post(
    flow: DeleteCharacterFlow,
    sessions: SessionManager,
    event: DeleteCharacterEvent,
    r: DeleteCharacterAction,
    now: int,
) -> bool {
    match event {
        DeleteCharacterEvent::Start => if token_valid(sessions@, flow.token@, now) {
            r == (DeleteCharacterAction::Delete {
                character_id: flow.character_id,
                user_id: sessions@[flow.token@].user_id,
            })
        } else {
            delete_refuses(r, "Invalid or expired token"@)
        },
        DeleteCharacterEvent::Deleted(Ok(true)) => r matches DeleteCharacterAction::Respond(
            ServerMessage::CharacterDeleted { character_id },
        ) && character_id == flow.character_id,
        DeleteCharacterEvent::Deleted(Ok(false)) => delete_refuses(
            r,
            "Character not found or not owned by you"@,
        ),
        DeleteCharacterEvent::Deleted(Err(_)) => delete_refuses(r, "Internal server error"@),
    }
}

impl DeleteCharacterFlow {
    pub fn new(token: String, character_id: i64) -> (r: Self)
        ensures
            r.token == token,
            r.character_id == character_id,
    {
        DeleteCharacterFlow { token, character_id }
    }

    /// One step of deleting a character, with the clock at `now`.
    pub fn step_at(&self, sessions: &SessionManager, event: DeleteCharacterEvent, now: i128) -> (r:
        DeleteCharacterAction)
        requires
            sessions.wf(),
        ensures
            delete_step_post(*self, *sessions, event, r, now as int),
    {
        match event {
            DeleteCharacterEvent::Start => match sessions.validate_token_at(self.token.as_str(), now) {
                Some(session) => DeleteCharacterAction::Delete {
                    character_id: self.character_id,
                    user_id: session.user_id,
                },
                None => refuse_deletion("Invalid or expired token"),
            },
            DeleteCharacterEvent::Deleted(Ok(true)) => DeleteCharacterAction::Respond(
                ServerMessage::CharacterDeleted { character_id: self.character_id },
            ),
            DeleteCharacterEvent::Deleted(Ok(false)) => refuse_deletion(
                "Character not found or not owned by you",
            ),
            DeleteCharacterEvent::Deleted(Err(_)) => refuse_deletion("Internal server error"),
        }
    }

    /// One step of deleting a character; the token is checked against the clock.
    pub fn step(&self, sessions: &SessionManager, event: DeleteCharacterEvent) -> (r:
        DeleteCharacterAction)
        requires
            sessions.wf(),
        ensures
            exists|now: int|
                0 <= now <= CLOCK_MAX_NANOS && #[trigger] delete_step_post(
                    *self,
                    *sessions,
                    event,
                    r,
                    now,
                ),
    {
        let now = now_nanos();
        self.step_at(sessions, event, now)
    }
}

// ---------------------------------------------------------------- choosing a specialization

/// Why a loaded character may not take specialization `s` for user `user_id`, if it may not.
pub open spec fn spec_specialization_refusal(c: Character, user_id: i64, s: Specialization) -> Option<
    Seq<char>,
> {
    let class = class_from_name(c.class@);
    if c.user_id != user_id {
        Some("Character does not belong to you"@)
    } else if c.level < SPECIALIZATION_LEVEL {
        Some("You must reach level 5 first (current: "@ + spec_decimal(c.level as int) + ")"@)
    } else if c.specialization is Some {
        Some("You have already chosen a specialization"@)
    } else if spec_class_of(s) != class {
        Some(
            "Specialization "@ + spec_display_name(s) + " is not valid for class "@ + class_name(
                class,
            ),
        )
    } else {
        None
    }
}

/// Checks whether a loaded character may take a specialization: it must belong to the
/// user, have reached level 5, have none yet, and the specialization must be one of its
/// class.
pub fn specialization_refusal(c: &Character, user_id: i64, specialization: Specialization) -> (r:
    Option<String>)
    ensures
        r matches Some(reason) ==> spec_specialization_refusal(*c, user_id, specialization)
            == Some(reason@),
        r is None ==> spec_specialization_refusal(*c, user_id, specialization) is None,
{
    let class = CharacterClass::from_db_str(c.class.as_str());
    if c.user_id != user_id {
        Some(String::from_str("Character does not belong to you"))
    } else if c.level < SPECIALIZATION_LEVEL {
        let mut reason = String::from_str("You must reach level 5 first (current: ");
        let level = i32_to_decimal(c.level);
        reason.append(level.as_str());
        reason.append(")");
        Some(reason)
    } else if c.specialization.is_some() {
        Some(String::from_str("You have already chosen a specialization"))
    } else if !specialization.is_valid_for_class(class) {
        let mut reason = String::from_str("Specialization ");
        reason.append(specialization.name());
        reason.append(" is not valid for class ");
        reason.append(class.as_str());
        Some(reason)
    } else {
        None
    }
}

/// A specialization is chosen once and for all: a character that has one is refused any
/// other, a character below level 5 is refused, and a choice goes through only for the
/// owner and a specialization of the character's class.
pub proof fn lemma_specialization_permanent(c: Character, user_id: i64, s: Specialization)
    ensures
        c.specialization is Some ==> spec_specialization_refusal(c, user_id, s) is Some,
        c.level < SPECIALIZATION_LEVEL ==> spec_specialization_refusal(c, user_id, s) is Some,
        spec_specialization_refusal(c, user_id, s) is None ==> {
            &&& c.user_id == user_id
            &&& c.level >= SPECIALIZATION_LEVEL
            &&& c.specialization is None
            &&& spec_class_of(s) == class_from_name(c.class@)
        },
{
}

pub enum SpecializationEvent {
    Start,
    Loaded(Result<Option<Character>, DbError>),
    Saved(Result<(), DbError>),
}

pub enum SpecializationAction {
    LoadCharacter { character_id: i64 },
    /// Store `stored_name` as the specialization of the character.
    SaveSpecialization { character_id: i64, specialization: Specialization, stored_name: &'static str },
    /// Give the player in the world the specialization, if the player is there, and confirm it.
    Apply { specialization: Specialization },
    Respond(ServerMessage),
}

pub open spec fn specialization_refuses(a: SpecializationAction, reason: Seq<char>) -> bool {
    a matches SpecializationAction::Respond(m) && specialization_refused(m, reason)
}

fn refuse_specialization(reason: String) -> (r: SpecializationAction)
    ensures
        specialization_refuses(r, reason@),
{
    SpecializationAction::Respond(ServerMessage::SpecializationFailed { reason })
}

pub struct SpecializationFlow {
    pub token: String,
    pub specialization: Specialization,
    /// The user and the character of the session, once the token has been accepted.
    pub user_id: Option<i64>,
    pub character_id: Option<i64>,
}

/// What one step of choosing a specialization does when the clock reads `now`.
pub open spec fn specialization_step_post(
    pre: SpecializationFlow,
    post: SpecializationFlow,
    sessions: SessionManager,
    event: SpecializationEvent,
    r: SpecializationAction,
    now: int,
) -> bool {
    &&& post.token == pre.token
    &&& post.specialization == pre.specialization
    &&& match event {
        SpecializationEvent::Start => {
            let session = sessions@[pre.token@];
            if !token_valid(sessions@, pre.token@, now) {
                specialization_refuses(r, "Invalid or expired token"@) && post.user_id == pre.user_id
                    && post.character_id == pre.character_id
            } else {
                match session.character_id {
                    Some(id) => r == (SpecializationAction::LoadCharacter { character_id: id })
                        && post.user_id == Some(session.user_id) && post.character_id == Some(id),
                    None => specialization_refuses(r, "No character selected"@) && post.user_id
                        == pre.user_id && post.character_id == pre.character_id,
                }
            }
        },
        SpecializationEvent::Loaded(Ok(Some(c))) => post.user_id == pre.user_id && post.character_id
            == pre.character_id && match (pre.user_id, pre.character_id) {
            (Some(uid), Some(cid)) => match spec_specialization_refusal(c, uid, pre.specialization) {
                Some(reason) => specialization_refuses(r, reason),
                None => r == (SpecializationAction::SaveSpecialization {
                    character_id: cid,
                    specialization: pre.specialization,
                    stored_name: r->stored_name,
                }) && r->stored_name@ == spec_db_name(pre.specialization),
            },
            _ => specialization_refuses(r, "Internal server error"@),
        },
        SpecializationEvent::Loaded(Ok(None)) => specialization_refuses(r, "Character not found"@)
            && post.user_id == pre.user_id && post.character_id == pre.character_id,
        SpecializationEvent::Loaded(Err(_)) => specialization_refuses(r, "Internal server error"@)
            && post.user_id == pre.user_id && post.character_id == pre.character_id,
        SpecializationEvent::Saved(Ok(())) => r == (SpecializationAction::Apply {
            specialization: pre.specialization,
        }) && post.user_id == pre.user_id && post.character_id == pre.character_id,
        SpecializationEvent::Saved(Err(_)) => specialization_refuses(
            r,
            "Failed to save specialization"@,
        ) && post.user_id == pre.user_id && post.character_id == pre.character_id,
    }
}

impl SpecializationFlow {
    pub fn new(token: String, specialization: Specialization) -> (r: Self)
        ensures
            r.token == token,
            r.specialization == specialization,
            r.user_id is None,
            r.character_id is None,
    {
        SpecializationFlow { token, specialization, user_id: None, character_id: None }
    }

    /// One step of choosing a specialization, with the clock at `now`.
    pub fn step_at(
        &mut self,
        sessions: &SessionManager,
        event: SpecializationEvent,
        now: i128,
    ) -> (r: SpecializationAction)
        requires
            sessions.wf(),
        ensures
            specialization_step_post(*old(self), *final(self), *sessions, event, r, now as int),
    {
        match event {
            SpecializationEvent::Start => match sessions.validate_token_at(self.token.as_str(), now) {
                Some(session) => match session.character_id {
                    Some(character_id) => {
                        self.user_id = Some(session.user_id);
                        self.character_id = Some(character_id);
                        SpecializationAction::LoadCharacter { character_id }
                    },
                    None => {
                        proof {
                            reveal_strlit("No character selected");
                            reveal_strlit("Invalid or expired token");
                            assert("No character selected"@.len() != "Invalid or expired token"@.len());
                        }
                        refuse_specialization(String::from_str("No character selected"))
                    },
                },
                None => refuse_specialization(String::from_str("Invalid or expired token")),
            },
            SpecializationEvent::Loaded(Ok(Some(c))) => {
                let (user_id, character_id) = match (self.user_id, self.character_id) {
                    (Some(u), Some(id)) => (u, id),
                    _ => {
                        return refuse_specialization(String::from_str("Internal server error"));
                    },
                };
                match specialization_refusal(&c, user_id, self.specialization) {
                    Some(reason) => refuse_specialization(reason),
                    None => SpecializationAction::SaveSpecialization {
                        character_id,
                        specialization: self.specialization,
                        stored_name: self.specialization.as_str(),
                    },
                }
            },
            SpecializationEvent::Loaded(Ok(None)) => refuse_specialization(
                String::from_str("Character not found"),
            ),
            SpecializationEvent::Loaded(Err(_)) => refuse_specialization(
                String::from_str("Internal server error"),
            ),
            SpecializationEvent::Saved(Ok(())) => SpecializationAction::Apply {
                specialization: self.specialization,
            },
            SpecializationEvent::Saved(Err(_)) => refuse_specialization(
                String::from_str("Failed to save specialization"),
            ),
        }
    }

    /// One step of choosing a specialization; the token is checked against the clock.
    pub fn step(&mut self, sessions: &SessionManager, event: SpecializationEvent) -> (r:
        SpecializationAction)
        requires
            sessions.wf(),
        ensures
            exists|now: int|
                0 <= now <= CLOCK_MAX_NANOS && #[trigger] specialization_step_post(
                    *old(self),
                    *final(self),
                    *sessions,
                    event,
                    r,
                    now,
                ),
    {
        let now = now_nanos();
        self.step_at(sessions, event, now)
    }
}

} // verus!
