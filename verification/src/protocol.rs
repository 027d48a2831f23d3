//! Data exchanged between client and server.
//!
//! Single-precision numbers (positions, colours, the hour of the day) travel through this
//! library as their IEEE-754 bit patterns (`f32::to_bits`); the library only copies them.

use vstd::prelude::*;
use crate::class::CharacterClass;
use crate::specialization::Specialization;

verus! {

pub const PROTOCOL_ID: u64 = 1000;

pub const SERVER_ADDR: &'static str = "127.0.0.1:5000";

/// A point or direction in the world, as the bit patterns of its three `f32` coordinates.
#[derive(Debug, Clone, Copy, PartialEq, Eq, Structural)]
pub struct Vec3Bits {
    pub x: u32,
    pub y: u32,
    pub z: u32,
}

/// Colours of a character, each channel the bit pattern of an `f32`.
#[derive(Debug, Clone, Copy)]
pub struct CharacterAppearance {
    pub skin_color: [u32; 3],
    pub hair_color: [u32; 3],
}

impl Default for CharacterAppearance {
    /// Skin (1.0, 0.8, 0.6) and hair (0.3, 0.2, 0.1).
    fn default() -> (r: CharacterAppearance)
        ensures
            r.skin_color@ == seq![0x3f80_0000u32, 0x3f4c_cccdu32, 0x3f19_999au32],
            r.hair_color@ == seq![0x3e99_999au32, 0x3e4c_cccdu32, 0x3dcc_cccdu32],
    {
        let r = CharacterAppearance {
            skin_color: [0x3f80_0000, 0x3f4c_cccd, 0x3f19_999a],
            hair_color: [0x3e99_999a, 0x3e4c_cccd, 0x3dcc_cccd],
        };
        assert(r.skin_color@ =~= seq![0x3f80_0000u32, 0x3f4c_cccdu32, 0x3f19_999au32]);
        assert(r.hair_color@ =~= seq![0x3e99_999au32, 0x3e4c_cccdu32, 0x3dcc_cccdu32]);
        r
    }
}

#[derive(Debug, Clone)]
pub struct CharacterData {
    pub name: String,
    pub class: CharacterClass,
    pub appearance: CharacterAppearance,
    pub level: i32,
    pub experience: i64,
    /// Chosen once, from level 5 on.
    pub specialization: Option<Specialization>,
}

#[derive(Debug)]
pub enum AuthMessage {
    Register { username: String, password: String, email: Option<String> },
    Login { username: String, password: String },
}

#[derive(Debug)]
pub enum AuthResponse {
    RegisterSuccess,
    RegisterFailed { reason: String },
    LoginSuccess { token: String, characters: Vec<CharacterSummary> },
    LoginFailed { reason: String },
}

#[derive(Debug, Clone)]
pub struct CharacterSummary {
    pub id: i64,
    pub name: String,
    pub class: CharacterClass,
    pub level: i32,
    /// RFC 3339 time of the last session, if any.
    pub last_played: Option<String>,
    pub specialization: Option<Specialization>,
}

#[derive(Debug)]
pub enum ClientMessage {
    Auth(AuthMessage),
    CreateCharacter { token: String, character: CharacterData },
    SelectCharacter { token: String, character_id: i64 },
    DeleteCharacter { token: String, character_id: i64 },
    Join { character: CharacterData },
    Move { direction: Vec3Bits },
    /// Absolute position update.
    UpdatePosition { position: Vec3Bits },
    /// Development command: add (or, when negative, take) experience.
    GainExperience { amount: i64 },
    ChooseSpecialization { token: String, specialization: Specialization },
    Disconnect,
}

/// Messages from server to client. Health, mana and stamina are whole numbers here;
/// on the wire they are `f32`.
#[derive(Debug)]
pub enum ServerMessage {
    AuthResponse(AuthResponse),
    CharacterCreated { character_id: i64 },
    CharacterCreationFailed { reason: String },
    CharacterSelected {
        character_id: i64,
        character_name: String,
        character_class: CharacterClass,
        position: Vec3Bits,
        level: i32,
        experience: i64,
        max_health: i64,
        max_mana: i64,
        max_stamina: i64,
        specialization: Option<Specialization>,
    },
    CharacterSelectionFailed { reason: String },
    CharacterDeleted { character_id: i64 },
    CharacterDeletionFailed { reason: String },
    PlayerJoined { id: u64, character: CharacterData, position: Vec3Bits },
    PlayerLeft { id: u64 },
    PlayerMoved { id: u64, position: Vec3Bits },
    WorldState { players: Vec<PlayerState> },
    ExperienceGained { amount: i64, new_total: i64, xp_needed: i64 },
    LevelUp { new_level: i32, new_max_health: i64, new_max_mana: i64, new_max_stamina: i64 },
    SpecializationChosen { specialization: Specialization },
    SpecializationFailed { reason: String },
    /// Hour of the day (bit pattern of an `f32` from 0.0 to 24.0).
    TimeUpdate { hour: u32 },
}

#[derive(Debug, Clone)]
pub struct PlayerState {
    pub id: u64,
    pub character: CharacterData,
    pub position: Vec3Bits,
}

#[derive(Debug, Clone, Copy)]
pub struct GraphicsSettings {
    pub vsync: bool,
    pub fullscreen: bool,
    pub resolution: (u32, u32),
}

impl Default for GraphicsSettings {
    fn default() -> (r: GraphicsSettings)
        ensures
            r == (GraphicsSettings { vsync: true, fullscreen: false, resolution: (1280u32, 720u32) }),
    {
        GraphicsSettings { vsync: true, fullscreen: false, resolution: (1280, 720) }
    }
}

} // verus!
