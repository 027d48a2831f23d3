//! Keyboard input of the login form, of a new character's name, and the buttons of the
//! developer panel.

use vstd::prelude::*;
use crate::class::CharacterClass;
use crate::leveling::{XpTable, MAX_LEVEL, spec_xp_for_level, spec_apply_experience, spec_level_up};
use crate::protocol::{AuthMessage, AuthResponse, CharacterAppearance, CharacterData};
use crate::text::{byte_len, utf8_len};

verus! {

/// The keys that text input reacts to; every other key is `Other`.
#[derive(Debug, Clone, Copy, PartialEq, Eq, Structural)]
pub enum Key {
    KeyA, KeyB, KeyC, KeyD, KeyE, KeyF, KeyG, KeyH, KeyI, KeyJ, KeyK, KeyL, KeyM, KeyN, KeyO, KeyP, KeyQ, KeyR, KeyS, KeyT, KeyU, KeyV, KeyW, KeyX, KeyY, KeyZ, Digit0, Digit1, Digit2, Digit3, Digit4, Digit5, Digit6, Digit7, Digit8, Digit9, Period, Minus, Equal, Space, Semicolon, Comma, Slash, Backslash, BracketLeft, BracketRight, Quote, Backquote,
    Backspace,
    Tab,
    Enter,
    Other,
}

/// The text that a key types into the login form, with or without shift (US layout).
pub open spec fn spec_key_text(key: Key, shift: bool) -> Option<Seq<char>> {
    match key {
        Key::KeyA => Some(if shift { "A"@ } else { "a"@ }),
        Key::KeyB => Some(if shift { "B"@ } else { "b"@ }),
        Key::KeyC => Some(if shift { "C"@ } else { "c"@ }),
        Key::KeyD => Some(if shift { "D"@ } else { "d"@ }),
        Key::KeyE => Some(if shift { "E"@ } else { "e"@ }),
        Key::KeyF => Some(if shift { "F"@ } else { "f"@ }),
        Key::KeyG => Some(if shift { "G"@ } else { "g"@ }),
        Key::KeyH => Some(if shift { "H"@ } else { "h"@ }),
        Key::KeyI => Some(if shift { "I"@ } else { "i"@ }),
        Key::KeyJ => Some(if shift { "J"@ } else { "j"@ }),
        Key::KeyK => Some(if shift { "K"@ } else { "k"@ }),
        Key::KeyL => Some(if shift { "L"@ } else { "l"@ }),
        Key::KeyM => Some(if shift { "M"@ } else { "m"@ }),
        Key::KeyN => Some(if shift { "N"@ } else { "n"@ }),
        Key::KeyO => Some(if shift { "O"@ } else { "o"@ }),
        Key::KeyP => Some(if shift { "P"@ } else { "p"@ }),
        Key::KeyQ => Some(if shift { "Q"@ } else { "q"@ }),
        Key::KeyR => Some(if shift { "R"@ } else { "r"@ }),
        Key::KeyS => Some(if shift { "S"@ } else { "s"@ }),
        Key::KeyT => Some(if shift { "T"@ } else { "t"@ }),
        Key::KeyU => Some(if shift { "U"@ } else { "u"@ }),
        Key::KeyV => Some(if shift { "V"@ } else { "v"@ }),
        Key::KeyW => Some(if shift { "W"@ } else { "w"@ }),
        Key::KeyX => Some(if shift { "X"@ } else { "x"@ }),
        Key::KeyY => Some(if shift { "Y"@ } else { "y"@ }),
        Key::KeyZ => Some(if shift { "Z"@ } else { "z"@ }),
        Key::Digit0 => Some(if shift { ")"@ } else { "0"@ }),
        Key::Digit1 => Some(if shift { "!"@ } else { "1"@ }),
        Key::Digit2 => Some(if shift { "@"@ } else { "2"@ }),
        Key::Digit3 => Some(if shift { "#"@ } else { "3"@ }),
        Key::Digit4 => Some(if shift { "$"@ } else { "4"@ }),
        Key::Digit5 => Some(if shift { "%"@ } else { "5"@ }),
        Key::Digit6 => Some(if shift { "^"@ } else { "6"@ }),
        Key::Digit7 => Some(if shift { "&"@ } else { "7"@ }),
        Key::Digit8 => Some(if shift { "*"@ } else { "8"@ }),
        Key::Digit9 => Some(if shift { "("@ } else { "9"@ }),
        Key::Period => Some(if shift { ">"@ } else { "."@ }),
        Key::Minus => Some(if shift { "_"@ } else { "-"@ }),
        Key::Equal => Some(if shift { "+"@ } else { "="@ }),
        Key::Space => Some(" "@),
        Key::Semicolon => Some(if shift { ":"@ } else { ";"@ }),
        Key::Comma => Some(if shift { "<"@ } else { ","@ }),
        Key::Slash => Some(if shift { "?"@ } else { "/"@ }),
        Key::Backslash => Some(if shift { "|"@ } else { "\\"@ }),
        Key::BracketLeft => Some(if shift { "{"@ } else { "["@ }),
        Key::BracketRight => Some(if shift { "}"@ } else { "]"@ }),
        Key::Quote => Some(if shift { "\""@ } else { "'"@ }),
        Key::Backquote => Some(if shift { "~"@ } else { "`"@ }),
        _ => None,
    }
}

/// The text a key types into the login form, if it types any.
pub fn text_for_key(key: Key, shift: bool) -> (r: Option<&'static str>)
    ensures
        match spec_key_text(key, shift) {
            Some(t) => r matches Some(s) && s@ == t,
            None => r is None,
        },
{
    match key {
        Key::KeyA => Some(if shift { "A" } else { "a" }),
        Key::KeyB => Some(if shift { "B" } else { "b" }),
        Key::KeyC => Some(if shift { "C" } else { "c" }),
        Key::KeyD => Some(if shift { "D" } else { "d" }),
        Key::KeyE => Some(if shift { "E" } else { "e" }),
        Key::KeyF => Some(if shift { "F" } else { "f" }),
        Key::KeyG => Some(if shift { "G" } else { "g" }),
        Key::KeyH => Some(if shift { "H" } else { "h" }),
        Key::KeyI => Some(if shift { "I" } else { "i" }),
        Key::KeyJ => Some(if shift { "J" } else { "j" }),
        Key::KeyK => Some(if shift { "K" } else { "k" }),
        Key::KeyL => Some(if shift { "L" } else { "l" }),
        Key::KeyM => Some(if shift { "M" } else { "m" }),
        Key::KeyN => Some(if shift { "N" } else { "n" }),
        Key::KeyO => Some(if shift { "O" } else { "o" }),
        Key::KeyP => Some(if shift { "P" } else { "p" }),
        Key::KeyQ => Some(if shift { "Q" } else { "q" }),
        Key::KeyR => Some(if shift { "R" } else { "r" }),
        Key::KeyS => Some(if shift { "S" } else { "s" }),
        Key::KeyT => Some(if shift { "T" } else { "t" }),
        Key::KeyU => Some(if shift { "U" } else { "u" }),
        Key::KeyV => Some(if shift { "V" } else { "v" }),
        Key::KeyW => Some(if shift { "W" } else { "w" }),
        Key::KeyX => Some(if shift { "X" } else { "x" }),
        Key::KeyY => Some(if shift { "Y" } else { "y" }),
        Key::KeyZ => Some(if shift { "Z" } else { "z" }),
        Key::Digit0 => Some(if shift { ")" } else { "0" }),
        Key::Digit1 => Some(if shift { "!" } else { "1" }),
        Key::Digit2 => Some(if shift { "@" } else { "2" }),
        Key::Digit3 => Some(if shift { "#" } else { "3" }),
        Key::Digit4 => Some(if shift { "$" } else { "4" }),
        Key::Digit5 => Some(if shift { "%" } else { "5" }),
        Key::Digit6 => Some(if shift { "^" } else { "6" }),
        Key::Digit7 => Some(if shift { "&" } else { "7" }),
        Key::Digit8 => Some(if shift { "*" } else { "8" }),
        Key::Digit9 => Some(if shift { "(" } else { "9" }),
        Key::Period => Some(if shift { ">" } else { "." }),
        Key::Minus => Some(if shift { "_" } else { "-" }),
        Key::Equal => Some(if shift { "+" } else { "=" }),
        Key::Space => Some(" "),
        Key::Semicolon => Some(if shift { ":" } else { ";" }),
        Key::Comma => Some(if shift { "<" } else { "," }),
        Key::Slash => Some(if shift { "?" } else { "/" }),
        Key::Backslash => Some(if shift { "|" } else { "\\" }),
        Key::BracketLeft => Some(if shift { "{" } else { "[" }),
        Key::BracketRight => Some(if shift { "}" } else { "]" }),
        Key::Quote => Some(if shift { "\"" } else { "'" }),
        Key::Backquote => Some(if shift { "~" } else { "`" }),
        _ => None,
    }
}

/// The character that a key adds to a new character's name: a letter (capital with shift,
/// small without) or a digit.
pub open spec fn spec_name_text(key: Key, shift: bool) -> Option<Seq<char>> {
    match key {
        Key::KeyA => Some(if shift { "A"@ } else { "a"@ }),
        Key::KeyB => Some(if shift { "B"@ } else { "b"@ }),
        Key::KeyC => Some(if shift { "C"@ } else { "c"@ }),
        Key::KeyD => Some(if shift { "D"@ } else { "d"@ }),
        Key::KeyE => Some(if shift { "E"@ } else { "e"@ }),
        Key::KeyF => Some(if shift { "F"@ } else { "f"@ }),
        Key::KeyG => Some(if shift { "G"@ } else { "g"@ }),
        Key::KeyH => Some(if shift { "H"@ } else { "h"@ }),
        Key::KeyI => Some(if shift { "I"@ } else { "i"@ }),
        Key::KeyJ => Some(if shift { "J"@ } else { "j"@ }),
        Key::KeyK => Some(if shift { "K"@ } else { "k"@ }),
        Key::KeyL => Some(if shift { "L"@ } else { "l"@ }),
        Key::KeyM => Some(if shift { "M"@ } else { "m"@ }),
        Key::KeyN => Some(if shift { "N"@ } else { "n"@ }),
        Key::KeyO => Some(if shift { "O"@ } else { "o"@ }),
        Key::KeyP => Some(if shift { "P"@ } else { "p"@ }),
        Key::KeyQ => Some(if shift { "Q"@ } else { "q"@ }),
        Key::KeyR => Some(if shift { "R"@ } else { "r"@ }),
        Key::KeyS => Some(if shift { "S"@ } else { "s"@ }),
        Key::KeyT => Some(if shift { "T"@ } else { "t"@ }),
        Key::KeyU => Some(if shift { "U"@ } else { "u"@ }),
        Key::KeyV => Some(if shift { "V"@ } else { "v"@ }),
        Key::KeyW => Some(if shift { "W"@ } else { "w"@ }),
        Key::KeyX => Some(if shift { "X"@ } else { "x"@ }),
        Key::KeyY => Some(if shift { "Y"@ } else { "y"@ }),
        Key::KeyZ => Some(if shift { "Z"@ } else { "z"@ }),
        Key::Digit0 => Some("0"@),
        Key::Digit1 => Some("1"@),
        Key::Digit2 => Some("2"@),
        Key::Digit3 => Some("3"@),
        Key::Digit4 => Some("4"@),
        Key::Digit5 => Some("5"@),
        Key::Digit6 => Some("6"@),
        Key::Digit7 => Some("7"@),
        Key::Digit8 => Some("8"@),
        Key::Digit9 => Some("9"@),
        _ => None,
    }
}

/// The text a key adds to a new character's name, if it adds any.
pub fn name_text_for_key(key: Key, shift: bool) -> (r: Option<&'static str>)
    ensures
        match spec_name_text(key, shift) {
            Some(t) => r matches Some(s) && s@ == t,
            None => r is None,
        },
{
    match key {
        Key::KeyA => Some(if shift { "A" } else { "a" }),
        Key::KeyB => Some(if shift { "B" } else { "b" }),
        Key::KeyC => Some(if shift { "C" } else { "c" }),
        Key::KeyD => Some(if shift { "D" } else { "d" }),
        Key::KeyE => Some(if shift { "E" } else { "e" }),
        Key::KeyF => Some(if shift { "F" } else { "f" }),
        Key::KeyG => Some(if shift { "G" } else { "g" }),
        Key::KeyH => Some(if shift { "H" } else { "h" }),
        Key::KeyI => Some(if shift { "I" } else { "i" }),
        Key::KeyJ => Some(if shift { "J" } else { "j" }),
        Key::KeyK => Some(if shift { "K" } else { "k" }),
        Key::KeyL => Some(if shift { "L" } else { "l" }),
        Key::KeyM => Some(if shift { "M" } else { "m" }),
        Key::KeyN => Some(if shift { "N" } else { "n" }),
        Key::KeyO => Some(if shift { "O" } else { "o" }),
        Key::KeyP => Some(if shift { "P" } else { "p" }),
        Key::KeyQ => Some(if shift { "Q" } else { "q" }),
        Key::KeyR => Some(if shift { "R" } else { "r" }),
        Key::KeyS => Some(if shift { "S" } else { "s" }),
        Key::KeyT => Some(if shift { "T" } else { "t" }),
        Key::KeyU => Some(if shift { "U" } else { "u" }),
        Key::KeyV => Some(if shift { "V" } else { "v" }),
        Key::KeyW => Some(if shift { "W" } else { "w" }),
        Key::KeyX => Some(if shift { "X" } else { "x" }),
        Key::KeyY => Some(if shift { "Y" } else { "y" }),
        Key::KeyZ => Some(if shift { "Z" } else { "z" }),
        Key::Digit0 => Some("0"),
        Key::Digit1 => Some("1"),
        Key::Digit2 => Some("2"),
        Key::Digit3 => Some("3"),
        Key::Digit4 => Some("4"),
        Key::Digit5 => Some("5"),
        Key::Digit6 => Some("6"),
        Key::Digit7 => Some("7"),
        Key::Digit8 => Some("8"),
        Key::Digit9 => Some("9"),
        _ => None,
    }
}

/// The text without its last character, as `String::pop` leaves it; empty text stays empty.
pub open spec fn spec_backspace(s: Seq<char>) -> Seq<char> {
    if s.len() == 0 {
        s
    } else {
        s.drop_last()
    }
}

/// `t` appended when the text holds fewer than `limit` UTF-8 bytes; otherwise unchanged.
pub open spec fn spec_type_into(s: Seq<char>, t: Seq<char>, limit: int) -> Seq<char> {
    if (utf8_len(s) as int) < limit {
        s + t
    } else {
        s
    }
}

/// Removes the last character of a text.
pub fn without_last_char(s: &String) -> (r: String)
    ensures
        r@ == spec_backspace(s@),
{
    let n = s.as_str().unicode_len();
    if n == 0 {
        let r = String::new();
        assert(r@ =~= s@);
        r
    } else {
        let part = s.as_str().substring_char(0, n - 1);
        let r = String::from_str(part);
        assert(r@ =~= s@.drop_last());
        r
    }
}

fn type_into(field: &mut String, text: &str, limit: usize)
    ensures
        final(field)@ == spec_type_into(old(field)@, text@, limit as int),
{
    if byte_len(field.as_str()) < limit {
        field.append(text);
    }
}

} // verus!

verus! {

/// The fields of the login form.
#[derive(Debug, Clone, Copy, PartialEq, Eq, Structural)]
pub enum InputField {
    Username,
    Password,
    Email,
}

impl Default for InputField {
    fn default() -> (r: InputField)
        ensures
            r == InputField::Username,
    {
        InputField::Username
    }
}

/// Where Tab moves the focus: username, password, then e-mail when registering, and round.
pub open spec fn spec_next_field(field: InputField, register_mode: bool) -> InputField {
    match field {
        InputField::Username => InputField::Password,
        InputField::Password => if register_mode {
            InputField::Email
        } else {
            InputField::Username
        },
        InputField::Email => InputField::Username,
    }
}

/// Most UTF-8 bytes that typing adds to each field.
pub const USERNAME_LIMIT: usize = 20;
pub const PASSWORD_LIMIT: usize = 30;
pub const EMAIL_LIMIT: usize = 50;

/// What a key press does to the text of the focused field.
pub open spec fn spec_field_after_key(s: Seq<char>, key: Key, shift: bool, limit: int) -> Seq<char> {
    match key {
        Key::Backspace => spec_backspace(s),
        Key::Tab | Key::Enter => s,
        _ => match spec_key_text(key, shift) {
            Some(t) => spec_type_into(s, t, limit),
            None => s,
        },
    }
}

/// The state of the login screen.
#[derive(Debug, Clone)]
pub struct LoginForm {
    pub username: String,
    pub password: String,
    pub email: String,
    pub is_register_mode: bool,
    pub active_field: InputField,
    pub status_message: String,
}

impl LoginForm {
    /// An empty form in login mode, with the focus on the username.
    pub fn new() -> (r: LoginForm)
        ensures
            r.username@ == Seq::<char>::empty(),
            r.password@ == Seq::<char>::empty(),
            r.email@ == Seq::<char>::empty(),
            !r.is_register_mode,
            r.active_field == InputField::Username,
            r.status_message@ == Seq::<char>::empty(),
    {
        LoginForm {
            username: String::new(),
            password: String::new(),
            email: String::new(),
            is_register_mode: false,
            active_field: InputField::Username,
            status_message: String::new(),
        }
    }

    /// Handles one key press: Backspace deletes in the focused field, Tab moves the focus,
    /// Enter does nothing, and a key that types text appends it to the focused field while
    /// that field is under its limit.
    pub fn press_key(&mut self, key: Key, shift: bool)
        ensures
            final(self).active_field == (if key == Key::Tab {
                spec_next_field(old(self).active_field, old(self).is_register_mode)
            } else {
                old(self).active_field
            }),
            final(self).username@ == (if old(self).active_field == InputField::Username {
                spec_field_after_key(old(self).username@, key, shift, USERNAME_LIMIT as int)
            } else {
                old(self).username@
            }),
            final(self).password@ == (if old(self).active_field == InputField::Password {
                spec_field_after_key(old(self).password@, key, shift, PASSWORD_LIMIT as int)
            } else {
                old(self).password@
            }),
            final(self).email@ == (if old(self).active_field == InputField::Email {
                spec_field_after_key(old(self).email@, key, shift, EMAIL_LIMIT as int)
            } else {
                old(self).email@
            }),
            final(self).is_register_mode == old(self).is_register_mode,
            final(self).status_message@ == old(self).status_message@,
    {
        match key {
            Key::Backspace => {
                match self.active_field {
                    InputField::Username => {
                        self.username = without_last_char(&self.username);
                    },
                    InputField::Password => {
                        self.password = without_last_char(&self.password);
                    },
                    InputField::Email => {
                        self.email = without_last_char(&self.email);
                    },
                }
            },
            Key::Tab => {
                self.active_field =
                match self.active_field {
                    InputField::Username => InputField::Password,
                    InputField::Password => {
                        if self.is_register_mode {
                            InputField::Email
                        } else {
                            InputField::Username
                        }
                    },
                    InputField::Email => InputField::Username,
                };
            },
            Key::Enter => {},
            _ => {
                if let Some(text) = text_for_key(key, shift) {
                    match self.active_field {
                        InputField::Username => type_into(&mut self.username, text, USERNAME_LIMIT),
                        InputField::Password => type_into(&mut self.password, text, PASSWORD_LIMIT),
                        InputField::Email => type_into(&mut self.email, text, EMAIL_LIMIT),
                    }
                }
            },
        }
    }

    /// Moves the focus to a field, as clicking it does.
    pub fn focus(&mut self, field: InputField)
        ensures
            final(self).active_field == field,
            final(self).username == old(self).username,
            final(self).password == old(self).password,
            final(self).email == old(self).email,
            final(self).is_register_mode == old(self).is_register_mode,
            final(self).status_message == old(self).status_message,
    {
        self.active_field = field;
    }

    /// Switches between logging in and registering, and clears the status line.
    pub fn switch_mode(&mut self)
        ensures
            final(self).is_register_mode == !old(self).is_register_mode,
            final(self).status_message@ == Seq::<char>::empty(),
            final(self).username == old(self).username,
            final(self).password == old(self).password,
            final(self).email == old(self).email,
            final(self).active_field == old(self).active_field,
    {
        self.is_register_mode = !self.is_register_mode;
        self.status_message = String::new();
    }

    /// The request that submitting the form sends: a registration, whose e-mail is left out
    /// when the field is empty, or a login.
    pub fn auth_message(&self) -> (r: AuthMessage)
        ensures
            self.is_register_mode ==> (r matches AuthMessage::Register { username, password, email }
                && username@ == self.username@ && password@ == self.password@ && (if self.email@.len()
                == 0 {
                email is None
            } else {
                email matches Some(e) && e@ == self.email@
            })),
            !self.is_register_mode ==> (r matches AuthMessage::Login { username, password }
                && username@ == self.username@ && password@ == self.password@),
    {
        if self.is_register_mode {
            let email = if self.email.as_str().unicode_len() == 0 {
                None
            } else {
                Some(self.email.clone())
            };
            AuthMessage::Register {
                username: self.username.clone(),
                password: self.password.clone(),
                email,
            }
        } else {
            AuthMessage::Login { username: self.username.clone(), password: self.password.clone() }
        }
    }

    /// Shows the server's answer in the status line; a successful registration returns the
    /// form to login mode.
    pub fn on_auth_response(&mut self, response: &AuthResponse)
        ensures
            final(self).status_message@ == spec_auth_status(*response),
            final(self).is_register_mode == (if response is RegisterSuccess {
                false
            } else {
                old(self).is_register_mode
            }),
            final(self).username == old(self).username,
            final(self).password == old(self).password,
            final(self).email == old(self).email,
            final(self).active_field == old(self).active_field,
    {
        proof {
            reveal_strlit("Success! Loading world...");
            reveal_strlit("Login failed: ");
            reveal_strlit("Account created! Please login.");
            reveal_strlit("Registration failed: ");
        }
        match response {
            AuthResponse::LoginSuccess { .. } => {
                self.status_message = String::from_str("Success! Loading world...");
            },
            AuthResponse::LoginFailed { reason } => {
                self.status_message = String::from_str("Login failed: ").concat(reason.as_str());
            },
            AuthResponse::RegisterSuccess => {
                self.status_message = String::from_str("Account created! Please login.");
                self.is_register_mode = false;
            },
            AuthResponse::RegisterFailed { reason } => {
                self.status_message = String::from_str("Registration failed: ").concat(
                    reason.as_str(),
                );
            },
        }
    }

    /// What a field shows: its text, the password as one `●` per byte, and a cursor `|`
    /// behind the focused field.
    pub fn field_display(&self, field: InputField) -> (r: String)
        ensures
            r@ == spec_field_display(
                match field {
                    InputField::Username => self.username@,
                    InputField::Password => self.password@,
                    InputField::Email => self.email@,
                },
                field == InputField::Password,
                field == self.active_field,
            ),
    {
        let mut shown = match field {
            InputField::Username => self.username.clone(),
            InputField::Password => masked(byte_len(self.password.as_str())),
            InputField::Email => self.email.clone(),
        };
        if field == self.active_field {
            shown.append("|");
        }
        shown
    }

    /// The label of the submit button.
    pub fn submit_label(&self) -> (r: &'static str)
        ensures
            r@ == (if self.is_register_mode {
                "⚔ CREATE ACCOUNT ⚔"@
            } else {
                "⚔ ENTER REALM ⚔"@
            }),
    {
        if self.is_register_mode {
            "⚔ CREATE ACCOUNT ⚔"
        } else {
            "⚔ ENTER REALM ⚔"
        }
    }
}

/// `n` mask characters.
pub open spec fn spec_masked(n: int) -> Seq<char> {
    Seq::new(n as nat, |i: int| '●')
}

/// What a field of the login form shows.
pub open spec fn spec_field_display(text: Seq<char>, hidden: bool, focused: bool) -> Seq<char> {
    let shown = if hidden {
        spec_masked(utf8_len(text) as int)
    } else {
        text
    };
    if focused {
        shown + "|"@
    } else {
        shown
    }
}

fn masked(n: usize) -> (r: String)
    ensures
        r@ == spec_masked(n as int),
{
    proof {
        reveal_strlit("●");
        assert("●"@ =~= seq!['●']);
    }
    let mut r = String::new();
    let mut i: usize = 0;
    while i < n
        invariant
            i <= n,
            r@ == spec_masked(i as int),
            "●"@ == seq!['●'],
        decreases n - i,
    {
        r.append("●");
        i = i + 1;
        assert(r@ =~= spec_masked(i as int));
    }
    r
}

/// The status line after an answer of the server.
pub open spec fn spec_auth_status(response: AuthResponse) -> Seq<char> {
    match response {
        AuthResponse::LoginSuccess { .. } => "Success! Loading world..."@,
        AuthResponse::LoginFailed { reason } => "Login failed: "@ + reason@,
        AuthResponse::RegisterSuccess => "Account created! Please login."@,
        AuthResponse::RegisterFailed { reason } => "Registration failed: "@ + reason@,
    }
}

} // verus!

verus! {

/// Longest name, in UTF-8 bytes, up to which the name field takes more characters.
pub const NAME_LIMIT: usize = 20;

/// What a key press does to the name of a new character: Backspace deletes, Space and
/// letters or digits are added while the name is under the limit.
pub open spec fn spec_name_after_key(name: Seq<char>, key: Key, shift: bool) -> Seq<char> {
    match key {
        Key::Backspace => spec_backspace(name),
        Key::Space => spec_type_into(name, seq![' '], NAME_LIMIT as int),
        _ => match spec_name_text(key, shift) {
            Some(t) => spec_type_into(name, t, NAME_LIMIT as int),
            None => name,
        },
    }
}

/// The character being put together on the creation screen.
#[derive(Debug, Clone)]
pub struct CharacterBuilder {
    pub name: String,
    pub class: CharacterClass,
}

impl CharacterBuilder {
    /// The creation screen starts with the name "Hero" and the class Krieger.
    pub fn new() -> (r: CharacterBuilder)
        ensures
            r.name@ == "Hero"@,
            r.class == CharacterClass::Krieger,
    {
        CharacterBuilder { name: String::from_str("Hero"), class: CharacterClass::Krieger }
    }

    /// Handles one key press on the name field.
    pub fn press_key(&mut self, key: Key, shift: bool)
        ensures
            final(self).name@ == spec_name_after_key(old(self).name@, key, shift),
            final(self).class == old(self).class,
    {
        match key {
            Key::Backspace => {
                self.name = without_last_char(&self.name);
            },
            Key::Space => {
                proof {
                    reveal_strlit(" ");
                }
                type_into(&mut self.name, " ", NAME_LIMIT);
            },
            _ => {
                if let Some(text) = name_text_for_key(key, shift) {
                    type_into(&mut self.name, text, NAME_LIMIT);
                }
            },
        }
    }

    /// Picks the class of the new character.
    pub fn select_class(&mut self, class: CharacterClass)
        ensures
            final(self).class == class,
            final(self).name == old(self).name,
    {
        self.class = class;
    }

    /// What the name field shows: the name, or "Hero" while it is empty, with the cursor
    /// when it is visible.
    pub fn name_display(&self, cursor_visible: bool) -> (r: String)
        ensures
            r@ == (if self.name@.len() == 0 {
                "Hero"@
            } else {
                self.name@
            }) + (if cursor_visible {
                "|"@
            } else {
                Seq::<char>::empty()
            }),
    {
        let mut shown = if self.name.as_str().unicode_len() == 0 {
            String::from_str("Hero")
        } else {
            self.name.clone()
        };
        if cursor_visible {
            shown.append("|");
        } else {
            assert(shown@ + Seq::<char>::empty() =~= shown@);
        }
        shown
    }

    /// The character to create: level 1, no experience, no specialization, the default
    /// look, and the name "Hero" when the field was left empty.
    pub fn character_data(&self) -> (r: CharacterData)
        ensures
            r.name@ == (if self.name@.len() == 0 {
                "Hero"@
            } else {
                self.name@
            }),
            r.class == self.class,
            r.level == 1,
            r.experience == 0,
            r.specialization is None,
            r.appearance.skin_color@ == seq![0x3f80_0000u32, 0x3f4c_cccdu32, 0x3f19_999au32],
            r.appearance.hair_color@ == seq![0x3e99_999au32, 0x3e4c_cccdu32, 0x3dcc_cccdu32],
    {
        let name = if self.name.as_str().unicode_len() == 0 {
            String::from_str("Hero")
        } else {
            self.name.clone()
        };
        CharacterData {
            name,
            class: self.class,
            appearance: CharacterAppearance::default(),
            level: 1,
            experience: 0,
            specialization: None,
        }
    }
}

} // verus!

verus! {

/// The buttons of the developer panel.
#[derive(Debug, Clone, Copy, PartialEq, Eq, Structural)]
pub enum DevButton {
    AddLevel,
    RemoveLevel,
    Add1000XP,
    ResetLevel,
}

/// Experience that a button of the developer panel asks the server to add (negative to take
/// away), given the level, the experience, and what the next level needs in all; `None`
/// where the button does nothing (removing a level at level 1).
pub open spec fn spec_dev_xp_amount(button: DevButton, level: int, experience: int, next_level_xp: int)
    -> Option<int> {
    match button {
        DevButton::AddLevel => Some(next_level_xp - experience),
        DevButton::RemoveLevel => if level > 1 {
            Some(
                if experience > 0 {
                    -(experience + 1)
                } else {
                    -1
                },
            )
        } else {
            None
        },
        DevButton::Add1000XP => Some(1000),
        DevButton::ResetLevel => Some(-experience),
    }
}

/// The experience request that a button of the developer panel sends.
pub fn dev_xp_amount(button: DevButton, level: i32, experience: i64, next_level_xp: i64) -> (r:
    Option<i64>)
    requires
        button == DevButton::AddLevel ==> i64::MIN <= next_level_xp - experience <= i64::MAX,
        button == DevButton::RemoveLevel ==> experience < i64::MAX,
        button == DevButton::ResetLevel ==> experience > i64::MIN,
    ensures
        match spec_dev_xp_amount(button, level as int, experience as int, next_level_xp as int) {
            Some(a) => r == Some(a as i64),
            None => r is None,
        },
{
    match button {
        DevButton::AddLevel => Some(next_level_xp - experience),
        DevButton::RemoveLevel => {
            if level > 1 {
                Some(
                    if experience > 0 {
                        -(experience + 1)
                    } else {
                        -1
                    },
                )
            } else {
                None
            }
        },
        DevButton::Add1000XP => Some(1000),
        DevButton::ResetLevel => Some(-experience),
    }
}

/// Adding a level from the developer panel, below the highest level, brings the character
/// exactly one level up with no experience left over, whatever experience it had.
pub proof fn lemma_add_level_gains_one(required: Seq<i64>, level: int, experience: int)
    requires
        XpTable::wf_seq(required),
        1 <= level < MAX_LEVEL,
    ensures
        ({
            let amount = spec_dev_xp_amount(
                DevButton::AddLevel,
                level,
                experience,
                spec_xp_for_level(required, level + 1),
            )->0;
            spec_apply_experience(required, level, experience, amount) == (level + 1, 0int, true)
        }),
{
    let next = spec_xp_for_level(required, level + 1);
    assert(next > 0);
    reveal_with_fuel(spec_level_up, 2);
    if level + 1 < 100 {
        assert(spec_xp_for_level(required, level + 2) > 0);
    }
}

/// Removing a level from the developer panel, above level 1, brings the character exactly one
/// level down with no experience, whatever experience it had.
pub proof fn lemma_remove_level_loses_one(required: Seq<i64>, level: int, experience: int)
    requires
        XpTable::wf_seq(required),
        level > 1,
    ensures
        ({
            let amount = spec_dev_xp_amount(DevButton::RemoveLevel, level, experience, 0)->0;
            spec_apply_experience(required, level, experience, amount) == (level - 1, 0int, true)
        }),
{
}

/// The reset button empties the experience and keeps the level: the server only ever takes
/// one level away, and an experience of exactly zero takes none.
pub proof fn lemma_reset_keeps_level(required: Seq<i64>, level: int, experience: int)
    requires
        XpTable::wf_seq(required),
        1 <= level <= MAX_LEVEL,
    ensures
        ({
            let amount = spec_dev_xp_amount(DevButton::ResetLevel, level, experience, 0)->0;
            spec_apply_experience(required, level, experience, amount) == (level, 0int, false)
        }),
{
    if level < 100 {
        assert(spec_xp_for_level(required, level + 1) > 0);
    }
}

} // verus!
