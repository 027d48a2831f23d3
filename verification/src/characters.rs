//! Stored characters, and what the server makes of them.

use vstd::prelude::*;
use crate::class::{CharacterClass, class_from_name};
use crate::protocol::{CharacterAppearance, CharacterData, Vec3Bits};
use crate::specialization::{Specialization, spec_from_db_name};

verus! {

/// A stored character. Positions and colours are bit patterns of `f32` values; times are
/// RFC 3339 text.
#[derive(Debug, Clone)]
pub struct Character {
    pub id: i64,
    pub user_id: i64,
    pub name: String,
    /// Class name as stored.
    pub class: String,
    pub level: i32,
    pub experience: i64,
    pub pos_x: u32,
    pub pos_y: u32,
    pub pos_z: u32,
    pub skin_color_r: u32,
    pub skin_color_g: u32,
    pub skin_color_b: u32,
    pub hair_color_r: u32,
    pub hair_color_g: u32,
    pub hair_color_b: u32,
    pub created_at: String,
    pub last_played: Option<String>,
    /// Stored name of the chosen specialization, if any.
    pub specialization: Option<String>,
}

/// Level from which a character may choose a specialization.
pub const SPECIALIZATION_LEVEL: i32 = 5;

/// The position at which a stored character stands.
pub open spec fn spec_position(c: Character) -> Vec3Bits {
    Vec3Bits { x: c.pos_x, y: c.pos_y, z: c.pos_z }
}

/// The specialization that a stored character has chosen, as far as its stored name is
/// one.
pub open spec fn spec_stored_specialization(c: Character) -> Option<Specialization> {
    match c.specialization {
        Some(s) => spec_from_db_name(s@),
        None => None,
    }
}

impl Character {
    /// The character as the game sees it. The specialization is not carried over (it is
    /// sent on its own when the character is selected).
    pub fn to_character_data(&self) -> (r: CharacterData)
        ensures
            r.name == self.name,
            r.class == class_from_name(self.class@),
            r.appearance.skin_color@ == seq![self.skin_color_r, self.skin_color_g, self.skin_color_b],
            r.appearance.hair_color@ == seq![self.hair_color_r, self.hair_color_g, self.hair_color_b],
            r.level == self.level,
            r.experience == self.experience,
            r.specialization is None,
    {
        let class = CharacterClass::from_db_str(self.class.as_str());
        let appearance = CharacterAppearance {
            skin_color: [self.skin_color_r, self.skin_color_g, self.skin_color_b],
            hair_color: [self.hair_color_r, self.hair_color_g, self.hair_color_b],
        };
        assert(appearance.skin_color@ =~= seq![self.skin_color_r, self.skin_color_g, self.skin_color_b]);
        assert(appearance.hair_color@ =~= seq![self.hair_color_r, self.hair_color_g, self.hair_color_b]);
        CharacterData {
            name: self.name.clone(),
            class,
            appearance,
            level: self.level,
            experience: self.experience,
            specialization: None,
        }
    }

    pub fn position(&self) -> (r: Vec3Bits)
        ensures
            r == spec_position(*self),
    {
        Vec3Bits { x: self.pos_x, y: self.pos_y, z: self.pos_z }
    }

    /// The specialization the character has chosen, read from its stored name.
    pub fn stored_specialization(&self) -> (r: Option<Specialization>)
        ensures
            r == spec_stored_specialization(*self),
    {
        match &self.specialization {
            Some(s) => Specialization::from_string(s.as_str()),
            None => None,
        }
    }
}

} // verus!
