//! Registration and login.
//!
//! Each request is a small state machine: the caller starts it, performs every database
//! action that it asks for, and hands back the outcome as the next event, until it
//! answers with a response.

use vstd::prelude::*;
use crate::class::{CharacterClass, class_from_name};
use crate::jwt::{create_token_at, hs256_token, jwt_secret_bytes, SECONDS_PER_HOUR};
use crate::password::{is_hash_of, hash_password, verify_password, bcrypt_verify_outcome};
use crate::protocol::{AuthResponse, CharacterSummary};
use crate::session::{SessionData, SessionManager, NANOS_PER_HOUR};
use crate::clock::{now_nanos, CLOCK_MAX_NANOS, NANOS_PER_SECOND};
use crate::text::utf8_len;

verus! {

/// Hours for which a login (its token and its session) stays valid.
pub const TOKEN_DURATION_HOURS: i64 = 24;

/// A database failure, with the message of the database driver.
#[derive(Debug, Clone)]
pub struct DbError {
    pub message: String,
}

/// A stored user account, as far as logging in reads it.
#[derive(Debug, Clone)]
pub struct User {
    pub id: i64,
    pub username: String,
    pub password_hash: String,
    pub email: Option<String>,
}

/// A stored character as the character list shows it.
#[derive(Debug, Clone)]
pub struct StoredCharacterSummary {
    pub id: i64,
    pub name: String,
    /// Class name as stored.
    pub class: String,
    pub level: i32,
    /// RFC 3339 time of the last session, if any.
    pub last_played: Option<String>,
}

/// Whether `r` refuses a registration for `reason`.
pub open spec fn register_failed(r: AuthResponse, reason: Seq<char>) -> bool {
    r matches AuthResponse::RegisterFailed { reason: x } && x@ == reason
}

/// Whether `r` refuses a login for `reason`.
pub open spec fn login_failed(r: AuthResponse, reason: Seq<char>) -> bool {
    r matches AuthResponse::LoginFailed { reason: x } && x@ == reason
}

/// Why a registration is refused before the database is asked, if it is.
pub open spec fn spec_registration_rejection(username: Seq<char>, password: Seq<char>) -> Option<
    Seq<char>,
> {
    if utf8_len(username) < 3 || utf8_len(username) > 20 {
        Some("Username must be between 3 and 20 characters"@)
    } else if utf8_len(password) < 8 {
        Some("Password must be at least 8 characters"@)
    } else {
        None
    }
}

pub struct RegisterRequest {
    pub username: String,
    pub password: String,
    pub email: Option<String>,
}

pub enum RegisterEvent {
    Start,
    /// Whether the username is taken.
    UsernameChecked(Result<bool, DbError>),
    /// Id of the new user.
    UserCreated(Result<i64, DbError>),
}

pub enum RegisterAction {
    /// Look up whether the username is taken.
    CheckUsername,
    /// Store the user with this password hash.
    CreateUser { password_hash: String },
    Respond(AuthResponse),
}

/// Whether `a` answers with a refusal for `reason`.
pub open spec fn register_refuses(a: RegisterAction, reason: Seq<char>) -> bool {
    a matches RegisterAction::Respond(r) && register_failed(r, reason)
}

fn failed_registration(reason: &str) -> (r: RegisterAction)
    ensures
        register_refuses(r, reason@),
{
    RegisterAction::Respond(AuthResponse::RegisterFailed { reason: String::from_str(reason) })
}

/// Checks the username (3 to 20 bytes) and the password (at least 8 bytes) of a new account.
pub fn validate_registration(username: &str, password: &str) -> (r: Option<String>)
    ensures
        r matches Some(reason) ==> spec_registration_rejection(username@, password@) == Some(
            reason@,
        ),
        r is None ==> spec_registration_rejection(username@, password@) is None,
{
    if username.len() < 3 || username.len() > 20 {
        Some(String::from_str("Username must be between 3 and 20 characters"))
    } else if password.len() < 8 {
        Some(String::from_str("Password must be at least 8 characters"))
    } else {
        None
    }
}

/// What a registration whose username is free asks for once the password has been hashed:
/// to store the user with that hash, whoever the user is, or a refusal when hashing failed.
pub fn register_with_hash(hashed: Result<String, bcrypt::BcryptError>) -> (r: RegisterAction)
    ensures
        match hashed {
            Ok(h) => r matches RegisterAction::CreateUser { password_hash } && password_hash == h,
            Err(_) => register_refuses(r, "Internal server error"@),
        },
{
    match hashed {
        Ok(password_hash) => RegisterAction::CreateUser { password_hash },
        Err(_) => failed_registration("Internal server error"),
    }
}

/// One step of a registration.
pub fn register_step(request: &RegisterRequest, event: RegisterEvent) -> (r: RegisterAction)
    ensures
        match event {
            RegisterEvent::Start => match spec_registration_rejection(
                request.username@,
                request.password@,
            ) {
                Some(reason) => register_refuses(r, reason),
                None => r is CheckUsername,
            },
            RegisterEvent::UsernameChecked(Ok(true)) => register_refuses(
                r,
                "Username already exists"@,
            ),
            RegisterEvent::UsernameChecked(Ok(false)) => (r matches RegisterAction::CreateUser {
                password_hash,
            } && is_hash_of(request.password@, password_hash@)) || register_refuses(
                r,
                "Internal server error"@,
            ),
            RegisterEvent::UsernameChecked(Err(_)) => register_refuses(r, "Internal server error"@),
            RegisterEvent::UserCreated(Ok(_)) => r matches RegisterAction::Respond(
                AuthResponse::RegisterSuccess,
            ),
            RegisterEvent::UserCreated(Err(_)) => register_refuses(r, "Failed to create user"@),
        },
{
    match event {
        RegisterEvent::Start => {
            match validate_registration(request.username.as_str(), request.password.as_str()) {
                Some(reason) => RegisterAction::Respond(AuthResponse::RegisterFailed { reason }),
                None => RegisterAction::CheckUsername,
            }
        },
        RegisterEvent::UsernameChecked(Ok(true)) => failed_registration("Username already exists"),
        RegisterEvent::UsernameChecked(Ok(false)) => {
            register_with_hash(hash_password(request.password.as_str()))
        },
        RegisterEvent::UsernameChecked(Err(_)) => failed_registration("Internal server error"),
        RegisterEvent::UserCreated(Ok(_)) => RegisterAction::Respond(AuthResponse::RegisterSuccess),
        RegisterEvent::UserCreated(Err(_)) => failed_registration("Failed to create user"),
    }
}

/// The entry of the character list for a stored character; the specialization is not
/// read from storage yet.
pub open spec fn spec_summary(s: StoredCharacterSummary) -> CharacterSummary {
    CharacterSummary {
        id: s.id,
        name: s.name,
        class: class_from_name(s.class@),
        level: s.level,
        last_played: s.last_played,
        specialization: None,
    }
}

/// Whether `entry` of a character list shows the stored character `s` as it is stored: the
/// same id, name, level and last session, the class its stored name reads as, and no
/// specialization.
pub open spec fn lists_stored_character(entry: CharacterSummary, s: StoredCharacterSummary) -> bool {
    &&& entry.id == s.id
    &&& entry.name == s.name
    &&& entry.level == s.level
    &&& entry.class == class_from_name(s.class@)
    &&& entry.last_played == s.last_played
    &&& entry.specialization is None
}

/// Turns stored characters into the entries of the character list, keeping their order.
pub fn summaries_from_stored(stored: Vec<StoredCharacterSummary>) -> (r: Vec<CharacterSummary>)
    ensures
        r@ == stored@.map_values(|s: StoredCharacterSummary| spec_summary(s)),
        r@.len() == stored@.len(),
        forall|i: int| 0 <= i < r@.len() ==> lists_stored_character(#[trigger] r@[i], stored@[i]),
{
    let ghost orig = stored@;
    let mut rest = stored;
    let mut out: Vec<CharacterSummary> = Vec::new();
    while rest.len() > 0
        invariant
            out@.len() + rest@.len() == orig.len(),
            rest@ == orig.skip(out@.len() as int),
            out@ == orig.take(out@.len() as int).map_values(
                |s: StoredCharacterSummary| spec_summary(s),
            ),
        decreases rest@.len(),
    {
        let ghost k = out@.len() as int;
        let s = rest.remove(0);
        let class = CharacterClass::from_db_str(s.class.as_str());
        out.push(
            CharacterSummary {
                id: s.id,
                name: s.name,
                class,
                level: s.level,
                last_played: s.last_played,
                specialization: None,
            },
        );
        assert(rest@ =~= orig.skip(k + 1));
        assert(out@ =~= orig.take(k + 1).map_values(|s: StoredCharacterSummary| spec_summary(s)));
    }
    assert(orig.take(orig.len() as int) =~= orig);
    out
}

pub enum LoginEvent {
    Start,
    UserFound(Result<Option<User>, DbError>),
    /// The outcome of recording the login time; a failure does not stop the login.
    LastLoginUpdated(Result<(), DbError>),
    CharactersLoaded(Result<Vec<StoredCharacterSummary>, DbError>),
}

pub enum LoginAction {
    FindUser,
    UpdateLastLogin { user_id: i64 },
    LoadCharacters { user_id: i64 },
    Respond(AuthResponse),
}

/// Whether `a` answers with a refusal for `reason`.
pub open spec fn login_refuses(a: LoginAction, reason: Seq<char>) -> bool {
    a matches LoginAction::Respond(r) && login_failed(r, reason)
}

fn failed_login(reason: &str) -> (r: LoginAction)
    ensures
        login_refuses(r, reason@),
{
    LoginAction::Respond(AuthResponse::LoginFailed { reason: String::from_str(reason) })
}

/// A login in progress.
pub struct LoginFlow {
    pub username: String,
    pub password: String,
    /// The user whose password checked out, once it has.
    pub user: Option<User>,
}

/// Whether `session` is the session that a login of `user` at `now` stores under `token`:
/// no character chosen yet, lasting a login's time from `now`.
pub open spec fn is_login_session(session: SessionData, user: User, token: Seq<char>, now: int) -> bool {
    &&& session.user_id == user.id
    &&& session.username@ == user.username@
    &&& session.token@ == token
    &&& session.character_id is None
    &&& session.created_at == now
    &&& session.expires_at == now + TOKEN_DURATION_HOURS * NANOS_PER_HOUR
}

/// The token that a login of `user` at `now` (nanoseconds) answers with: issued at that
/// second and valid for a login's time.
pub open spec fn login_token(user: User, now: int) -> Seq<char> {
    hs256_token(
        user.id,
        user.username@,
        (now / NANOS_PER_SECOND as int + TOKEN_DURATION_HOURS * SECONDS_PER_HOUR) as i64,
        (now / NANOS_PER_SECOND as int) as i64,
        jwt_secret_bytes(),
    )
}

/// What one step of a login does when the clock reads `now`, with the sessions `s0` before
/// and `s1` after.
pub open spec fn login_step_post(
    pre: LoginFlow,
    post: LoginFlow,
    s0: SessionManager,
    s1: SessionManager,
    event: LoginEvent,
    r: LoginAction,
    now: int,
) -> bool {
    &&& s1.wf()
    &&& post.username == pre.username
    &&& post.password == pre.password
    &&& match event {
        LoginEvent::Start => r is FindUser && post.user == pre.user && s1@ == s0@,
        LoginEvent::UserFound(Ok(Some(user))) => s1@ == s0@ && match bcrypt_verify_outcome(
            pre.password@,
            user.password_hash@,
        ) {
            Some(true) => r == (LoginAction::UpdateLastLogin { user_id: user.id }) && post.user
                == Some(user),
            Some(false) => login_refuses(r, "Invalid username or password"@) && post.user
                == pre.user,
            None => login_refuses(r, "Internal server error"@) && post.user == pre.user,
        },
        LoginEvent::UserFound(Ok(None)) => login_refuses(r, "Invalid username or password"@)
            && post.user == pre.user && s1@ == s0@,
        LoginEvent::UserFound(Err(_)) => login_refuses(r, "Internal server error"@) && post.user
            == pre.user && s1@ == s0@,
        LoginEvent::LastLoginUpdated(_) => post.user == pre.user && s1@ == s0@ && match pre.user {
            Some(user) => r == (LoginAction::LoadCharacters { user_id: user.id }),
            None => login_refuses(r, "Internal server error"@),
        },
        LoginEvent::CharactersLoaded(loaded) => post.user == pre.user && match pre.user {
            Some(user) => {
                &&& r matches LoginAction::Respond(AuthResponse::LoginSuccess { token, characters })
                &&& token@ == login_token(user, now)
                &&& token@.len() > 0
                &&& characters@ == match loaded {
                    Ok(v) => v@.map_values(|s: StoredCharacterSummary| spec_summary(s)),
                    Err(_) => Seq::empty(),
                }
                &&& s1@.dom() == s0@.dom().insert(token@)
                &&& forall|k: Seq<char>|
                    k != token@ && #[trigger] s0@.dom().contains(k) ==> s1@[k] == s0@[k]
                &&& is_login_session(s1@[token@], user, token@, now)
            },
            None => login_refuses(r, "Internal server error"@) && s1@ == s0@,
        },
    }
}

impl LoginFlow {
    pub fn new(username: String, password: String) -> (r: LoginFlow)
        ensures
            r.username == username,
            r.password == password,
            r.user is None,
    {
        LoginFlow { username, password, user: None }
    }

    /// One step of a login, with the clock at `now` (nanoseconds). A login that succeeds
    /// adds its session to `sessions`.
    pub fn login_step_at(
        &mut self,
        sessions: &mut SessionManager,
        event: LoginEvent,
        now: i128,
    ) -> (r: LoginAction)
        requires
            old(sessions).wf(),
            0 <= now <= CLOCK_MAX_NANOS,
        ensures
            login_step_post(
                *old(self),
                *final(self),
                *old(sessions),
                *final(sessions),
                event,
                r,
                now as int,
            ),
    {
        match event {
            LoginEvent::Start => LoginAction::FindUser,
            LoginEvent::UserFound(Ok(Some(user))) => {
                match verify_password(self.password.as_str(), user.password_hash.as_str()) {
                    Ok(true) => {
                        let user_id = user.id;
                        self.user = Some(user);
                        LoginAction::UpdateLastLogin { user_id }
                    },
                    Ok(false) => failed_login("Invalid username or password"),
                    Err(_) => failed_login("Internal server error"),
                }
            },
            LoginEvent::UserFound(Ok(None)) => failed_login("Invalid username or password"),
            LoginEvent::UserFound(Err(_)) => failed_login("Internal server error"),
            LoginEvent::LastLoginUpdated(_) => match &self.user {
                Some(user) => LoginAction::LoadCharacters { user_id: user.id },
                None => failed_login("Internal server error"),
            },
            LoginEvent::CharactersLoaded(loaded) => {
                let (user_id, username) = match &self.user {
                    Some(user) => (user.id, user.username.clone()),
                    None => {
                        return failed_login("Internal server error");
                    },
                };
                let characters = match loaded {
                    Ok(stored) => summaries_from_stored(stored),
                    Err(_) => Vec::new(),
                };
                match create_token_at(user_id, username.as_str(), TOKEN_DURATION_HOURS, (now / NANOS_PER_SECOND) as i64) {
                    Ok(token) => {
                        let session = SessionData::new_at(
                            user_id,
                            username,
                            token.clone(),
                            TOKEN_DURATION_HOURS,
                            now,
                        );
                        let ghost s = session;
                        sessions.add_session(token.clone(), session);
                        proof {
                            assert(final(sessions)@ == old(sessions)@.insert(token@, s));
                        }
                        LoginAction::Respond(AuthResponse::LoginSuccess { token, characters })
                    },
                    Err(_) => failed_login("Internal server error"),
                }
            },
        }
    }

    /// One step of a login; a login that succeeds is stamped with the clock and adds its
    /// session to `sessions`.
    pub fn login_step(&mut self, sessions: &mut SessionManager, event: LoginEvent) -> (r:
        LoginAction)
        requires
            old(sessions).wf(),
        ensures
            exists|now: int|
                0 <= now <= CLOCK_MAX_NANOS && #[trigger] login_step_post(
                    *old(self),
                    *final(self),
                    *old(sessions),
                    *final(sessions),
                    event,
                    r,
                    now,
                ),
    {
        let now = now_nanos();
        self.login_step_at(sessions, event, now)
    }
}

/// The session that a successful login stores is accepted for the 24 hours after it was
/// made, under the token that the login answered with.
pub proof fn lemma_login_session_lasts(
    m: Map<Seq<char>, SessionData>,
    user: User,
    token: Seq<char>,
    login_time: int,
    now: int,
)
    requires
        m.dom().contains(token),
        is_login_session(m[token], user, token, login_time),
        login_time <= now <= login_time + TOKEN_DURATION_HOURS * NANOS_PER_HOUR,
    ensures
        crate::session::token_valid(m, token, now),
        m[token].user_id == user.id,
{
}

/// A password that registration hashed is accepted at login: when the stored hash is one
/// that registration made of the password given at login, the login goes on to record the
/// login time and keeps the user.
pub proof fn lemma_registered_password_logs_in(
    pre: LoginFlow,
    post: LoginFlow,
    s0: SessionManager,
    s1: SessionManager,
    user: User,
    r: LoginAction,
    now: int,
)
    requires
        is_hash_of(pre.password@, user.password_hash@),
        login_step_post(pre, post, s0, s1, LoginEvent::UserFound(Ok(Some(user))), r, now),
    ensures
        r == (LoginAction::UpdateLastLogin { user_id: user.id }),
        post.user == Some(user),
        s1@ == s0@,
{
}

/// A login that succeeds lists the user's stored characters, in their stored order, each
/// with its stored id, name and level unchanged; when loading them failed the list is empty.
pub proof fn lemma_login_lists_stored_characters(
    pre: LoginFlow,
    post: LoginFlow,
    s0: SessionManager,
    s1: SessionManager,
    loaded: Result<Vec<StoredCharacterSummary>, DbError>,
    r: LoginAction,
    now: int,
)
    requires
        pre.user is Some,
        login_step_post(pre, post, s0, s1, LoginEvent::CharactersLoaded(loaded), r, now),
    ensures
        r matches LoginAction::Respond(AuthResponse::LoginSuccess { characters, .. }) && match loaded {
            Ok(v) => {
                &&& characters@.len() == v@.len()
                &&& forall|i: int|
                    0 <= i < v@.len() ==> lists_stored_character(#[trigger] characters@[i], v@[i])
            },
            Err(_) => characters@.len() == 0,
        },
{
}

} // verus!
