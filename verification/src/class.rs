//! Character classes.

use vstd::prelude::*;
use crate::text::str_eq;
use crate::specialization::{spec_display_name, spec_specialization};

verus! {

/// The four playable classes.
#[derive(Debug, Clone, Copy, PartialEq, Eq, Structural)]
pub enum CharacterClass {
    Krieger,
    Ninja,
    Sura,
    Schamane,
}

/// The name under which a class is shown and stored.
pub open spec fn class_name(c: CharacterClass) -> Seq<char> {
    match c {
        CharacterClass::Krieger => "Krieger"@,
        CharacterClass::Ninja => "Ninja"@,
        CharacterClass::Sura => "Sura"@,
        CharacterClass::Schamane => "Schamane"@,
    }
}

/// The class that a stored class name stands for; unknown names fall back to `Krieger`.
pub open spec fn class_from_name(s: Seq<char>) -> CharacterClass {
    if s == "Ninja"@ {
        CharacterClass::Ninja
    } else if s == "Sura"@ {
        CharacterClass::Sura
    } else if s == "Schamane"@ {
        CharacterClass::Schamane
    } else {
        CharacterClass::Krieger
    }
}

impl CharacterClass {
    pub fn as_str(&self) -> (r: &'static str)
        ensures
            r@ == class_name(*self),
    {
        match self {
            CharacterClass::Krieger => "Krieger",
            CharacterClass::Ninja => "Ninja",
            CharacterClass::Sura => "Sura",
            CharacterClass::Schamane => "Schamane",
        }
    }

    /// Display names of the two specializations of the class, in index order.
    pub fn specializations(&self) -> (r: (&'static str, &'static str))
        ensures
            r.0@ == spec_display_name(spec_specialization(*self, 0).unwrap()),
            r.1@ == spec_display_name(spec_specialization(*self, 1).unwrap()),
    {
        match self {
            CharacterClass::Krieger => ("Leibwächter", "Gladiator"),
            CharacterClass::Ninja => ("Bogenschütze", "Attentäter"),
            CharacterClass::Sura => ("Dämonen-Jäger", "Blutkrieger"),
            CharacterClass::Schamane => ("Lebenshüter", "Sturmrufer"),
        }
    }

    /// Reads a class from its stored name; any other text reads as `Krieger`.
    pub fn from_db_str(s: &str) -> (r: CharacterClass)
        ensures
            r == class_from_name(s@),
    {
        if str_eq(s, "Ninja") {
            CharacterClass::Ninja
        } else if str_eq(s, "Sura") {
            CharacterClass::Sura
        } else if str_eq(s, "Schamane") {
            CharacterClass::Schamane
        } else {
            CharacterClass::Krieger
        }
    }
}

impl Default for CharacterClass {
    fn default() -> (r: CharacterClass)
        ensures
            r == CharacterClass::Krieger,
    {
        CharacterClass::Krieger
    }
}

/// Reading the stored name of a class gives the class back.
pub proof fn lemma_class_name_round_trip(c: CharacterClass)
    ensures
        class_from_name(class_name(c)) == c,
{
    reveal_strlit("Krieger");
    reveal_strlit("Ninja");
    reveal_strlit("Sura");
    reveal_strlit("Schamane");
    assert("Krieger"@.len() == 7);
    assert("Ninja"@.len() == 5);
    assert("Sura"@.len() == 4);
    assert("Schamane"@.len() == 8);
}

} // verus!
