//! Specializations: two per class, chosen once a character reaches level 5.

use vstd::prelude::*;
use crate::class::CharacterClass;
use crate::skills::{SkillId, spec_skills};
use crate::text::str_eq;

verus! {

#[derive(Debug, Clone, Copy, PartialEq, Eq, Structural)]
pub enum Specialization {
    Leibwaechter,
    Gladiator,
    Bogenschuetze,
    Attentaeter,
    DaemonenJaeger,
    Blutkrieger,
    Lebenshueter,
    Sturmrufer,
}

/// The class a specialization belongs to.
pub open spec fn spec_class_of(s: Specialization) -> CharacterClass {
    match s {
        Specialization::Leibwaechter | Specialization::Gladiator => CharacterClass::Krieger,
        Specialization::Bogenschuetze | Specialization::Attentaeter => CharacterClass::Ninja,
        Specialization::DaemonenJaeger | Specialization::Blutkrieger => CharacterClass::Sura,
        Specialization::Lebenshueter | Specialization::Sturmrufer => CharacterClass::Schamane,
    }
}

/// The position (0 or 1) of a specialization among the two of its class.
pub open spec fn spec_index_of(s: Specialization) -> u8 {
    match s {
        Specialization::Leibwaechter | Specialization::Bogenschuetze
        | Specialization::DaemonenJaeger | Specialization::Lebenshueter => 0,
        _ => 1,
    }
}

/// The specialization at a position of a class.
pub open spec fn spec_specialization(c: CharacterClass, index: u8) -> Option<Specialization> {
    match (c, index) {
        (CharacterClass::Krieger, 0) => Some(Specialization::Leibwaechter),
        (CharacterClass::Krieger, 1) => Some(Specialization::Gladiator),
        (CharacterClass::Ninja, 0) => Some(Specialization::Bogenschuetze),
        (CharacterClass::Ninja, 1) => Some(Specialization::Attentaeter),
        (CharacterClass::Sura, 0) => Some(Specialization::DaemonenJaeger),
        (CharacterClass::Sura, 1) => Some(Specialization::Blutkrieger),
        (CharacterClass::Schamane, 0) => Some(Specialization::Lebenshueter),
        (CharacterClass::Schamane, 1) => Some(Specialization::Sturmrufer),
        _ => None,
    }
}

/// Display name of a specialization.
pub open spec fn spec_display_name(s: Specialization) -> Seq<char> {
    match s {
        Specialization::Leibwaechter => "Leibwächter"@,
        Specialization::Gladiator => "Gladiator"@,
        Specialization::Bogenschuetze => "Bogenschütze"@,
        Specialization::Attentaeter => "Attentäter"@,
        Specialization::DaemonenJaeger => "Dämonen-Jäger"@,
        Specialization::Blutkrieger => "Blutkrieger"@,
        Specialization::Lebenshueter => "Lebenshüter"@,
        Specialization::Sturmrufer => "Sturmrufer"@,
    }
}

/// Short description of the role of a specialization.
pub open spec fn spec_description(s: Specialization) -> Seq<char> {
    match s {
        Specialization::Leibwaechter => "PvM Tank - Monster tanken, Gruppe schützen"@,
        Specialization::Gladiator => "PvP Damage - Burst-Schaden gegen Spieler"@,
        Specialization::Bogenschuetze => "Fernkampf - Distanz-DPS, Kiting"@,
        Specialization::Attentaeter => "Nahkampf - Burst, kritische Treffer"@,
        Specialization::DaemonenJaeger => "PvM - Monster-Damage, Lebensraub"@,
        Specialization::Blutkrieger => "PvP - Healing Reduction, Damage"@,
        Specialization::Lebenshueter => "Support - Gruppe heilen, Buffs"@,
        Specialization::Sturmrufer => "PvP Damage - Elemental-Schaden, CC"@,
    }
}

/// The name under which a specialization is stored.
pub open spec fn spec_db_name(s: Specialization) -> Seq<char> {
    match s {
        Specialization::Leibwaechter => "Leibwaechter"@,
        Specialization::Gladiator => "Gladiator"@,
        Specialization::Bogenschuetze => "Bogenschuetze"@,
        Specialization::Attentaeter => "Attentaeter"@,
        Specialization::DaemonenJaeger => "DaemonenJaeger"@,
        Specialization::Blutkrieger => "Blutkrieger"@,
        Specialization::Lebenshueter => "Lebenshueter"@,
        Specialization::Sturmrufer => "Sturmrufer"@,
    }
}

/// The specialization that a stored name stands for, if any.
pub open spec fn spec_from_db_name(s: Seq<char>) -> Option<Specialization> {
    if s == "Leibwaechter"@ {
        Some(Specialization::Leibwaechter)
    } else if s == "Gladiator"@ {
        Some(Specialization::Gladiator)
    } else if s == "Bogenschuetze"@ {
        Some(Specialization::Bogenschuetze)
    } else if s == "Attentaeter"@ {
        Some(Specialization::Attentaeter)
    } else if s == "DaemonenJaeger"@ {
        Some(Specialization::DaemonenJaeger)
    } else if s == "Blutkrieger"@ {
        Some(Specialization::Blutkrieger)
    } else if s == "Lebenshueter"@ {
        Some(Specialization::Lebenshueter)
    } else if s == "Sturmrufer"@ {
        Some(Specialization::Sturmrufer)
    } else {
        None
    }
}

impl Specialization {
    pub fn from_class_and_index(class: CharacterClass, index: u8) -> (r: Option<Self>)
        ensures
            r == spec_specialization(class, index),
    {
        match (class, index) {
            (CharacterClass::Krieger, 0) => Some(Specialization::Leibwaechter),
            (CharacterClass::Krieger, 1) => Some(Specialization::Gladiator),
            (CharacterClass::Ninja, 0) => Some(Specialization::Bogenschuetze),
            (CharacterClass::Ninja, 1) => Some(Specialization::Attentaeter),
            (CharacterClass::Sura, 0) => Some(Specialization::DaemonenJaeger),
            (CharacterClass::Sura, 1) => Some(Specialization::Blutkrieger),
            (CharacterClass::Schamane, 0) => Some(Specialization::Lebenshueter),
            (CharacterClass::Schamane, 1) => Some(Specialization::Sturmrufer),
            _ => None,
        }
    }

    pub fn name(&self) -> (r: &'static str)
        ensures
            r@ == spec_display_name(*self),
    {
        match self {
            Specialization::Leibwaechter => "Leibwächter",
            Specialization::Gladiator => "Gladiator",
            Specialization::Bogenschuetze => "Bogenschütze",
            Specialization::Attentaeter => "Attentäter",
            Specialization::DaemonenJaeger => "Dämonen-Jäger",
            Specialization::Blutkrieger => "Blutkrieger",
            Specialization::Lebenshueter => "Lebenshüter",
            Specialization::Sturmrufer => "Sturmrufer",
        }
    }

    pub fn description(&self) -> (r: &'static str)
        ensures
            r@ == spec_description(*self),
    {
        match self {
            Specialization::Leibwaechter => "PvM Tank - Monster tanken, Gruppe schützen",
            Specialization::Gladiator => "PvP Damage - Burst-Schaden gegen Spieler",
            Specialization::Bogenschuetze => "Fernkampf - Distanz-DPS, Kiting",
            Specialization::Attentaeter => "Nahkampf - Burst, kritische Treffer",
            Specialization::DaemonenJaeger => "PvM - Monster-Damage, Lebensraub",
            Specialization::Blutkrieger => "PvP - Healing Reduction, Damage",
            Specialization::Lebenshueter => "Support - Gruppe heilen, Buffs",
            Specialization::Sturmrufer => "PvP Damage - Elemental-Schaden, CC",
        }
    }

    /// The five skills of a specialization, in the order in which they unlock.
    pub fn skills(&self) -> (r: Vec<SkillId>)
        ensures
            r@ == spec_skills(*self),
    {
        match self {
            Specialization::Leibwaechter => vec![
                SkillId::Schildwall, SkillId::Provokation, SkillId::Erderschuetterung,
                SkillId::EiserneHaut, SkillId::LetzteBastion,
            ],
            Specialization::Gladiator => vec![
                SkillId::Wirbelsturm, SkillId::Kriegsschrei, SkillId::Hinrichtung,
                SkillId::Raserei, SkillId::ToedlicherStoss,
            ],
            Specialization::Bogenschuetze => vec![
                SkillId::Praezisionsschuss, SkillId::Pfeilhagel, SkillId::Giftpfeil,
                SkillId::Rueckwaertssprung, SkillId::Durchschlag,
            ],
            Specialization::Attentaeter => vec![
                SkillId::Schattenschritt, SkillId::Dolchwirbel, SkillId::ToedlicheGifte,
                SkillId::Unsichtbarkeit, SkillId::Gnadenstoss,
            ],
            Specialization::DaemonenJaeger => vec![
                SkillId::Flammenschlag, SkillId::Seelenraub, SkillId::Zauberklinge,
                SkillId::DunklerSchutz, SkillId::DaemonischeVerwandlung,
            ],
            Specialization::Blutkrieger => vec![
                SkillId::Blutgier, SkillId::Seelenketten, SkillId::Vampirschlag,
                SkillId::Furchtaura, SkillId::Seelenernte,
            ],
            Specialization::Lebenshueter => vec![
                SkillId::HeilendeWelle, SkillId::Naturschild, SkillId::Erneuerung,
                SkillId::SegnungDerNatur, SkillId::Wiedergeburt,
            ],
            Specialization::Sturmrufer => vec![
                SkillId::Blitzschlag, SkillId::Kettenblitz, SkillId::Tornado,
                SkillId::Erdspiesse, SkillId::ZornDerElemente,
            ],
        }
    }

    /// The name under which the specialization is stored.
    pub fn as_str(&self) -> (r: &'static str)
        ensures
            r@ == spec_db_name(*self),
    {
        match self {
            Specialization::Leibwaechter => "Leibwaechter",
            Specialization::Gladiator => "Gladiator",
            Specialization::Bogenschuetze => "Bogenschuetze",
            Specialization::Attentaeter => "Attentaeter",
            Specialization::DaemonenJaeger => "DaemonenJaeger",
            Specialization::Blutkrieger => "Blutkrieger",
            Specialization::Lebenshueter => "Lebenshueter",
            Specialization::Sturmrufer => "Sturmrufer",
        }
    }

    /// Reads a specialization from its stored name.
    pub fn from_string(s: &str) -> (r: Option<Self>)
        ensures
            r == spec_from_db_name(s@),
    {
        if str_eq(s, "Leibwaechter") {
            Some(Specialization::Leibwaechter)
        } else if str_eq(s, "Gladiator") {
            Some(Specialization::Gladiator)
        } else if str_eq(s, "Bogenschuetze") {
            Some(Specialization::Bogenschuetze)
        } else if str_eq(s, "Attentaeter") {
            Some(Specialization::Attentaeter)
        } else if str_eq(s, "DaemonenJaeger") {
            Some(Specialization::DaemonenJaeger)
        } else if str_eq(s, "Blutkrieger") {
            Some(Specialization::Blutkrieger)
        } else if str_eq(s, "Lebenshueter") {
            Some(Specialization::Lebenshueter)
        } else if str_eq(s, "Sturmrufer") {
            Some(Specialization::Sturmrufer)
        } else {
            None
        }
    }

    /// Whether this specialization is one of the two of `class`.
    pub fn is_valid_for_class(&self, class: CharacterClass) -> (r: bool)
        ensures
            r == (spec_class_of(*self) == class),
    {
        match (class, self) {
            (CharacterClass::Krieger, Specialization::Leibwaechter) => true,
            (CharacterClass::Krieger, Specialization::Gladiator) => true,
            (CharacterClass::Ninja, Specialization::Bogenschuetze) => true,
            (CharacterClass::Ninja, Specialization::Attentaeter) => true,
            (CharacterClass::Sura, Specialization::DaemonenJaeger) => true,
            (CharacterClass::Sura, Specialization::Blutkrieger) => true,
            (CharacterClass::Schamane, Specialization::Lebenshueter) => true,
            (CharacterClass::Schamane, Specialization::Sturmrufer) => true,
            _ => false,
        }
    }
}

/// Reading the stored name of a specialization gives it back.
pub proof fn lemma_db_name_round_trip(s: Specialization)
    ensures
        spec_from_db_name(spec_db_name(s)) == Some(s),
{
    reveal_strlit("Leibwaechter");
    reveal_strlit("Gladiator");
    reveal_strlit("Bogenschuetze");
    reveal_strlit("Attentaeter");
    reveal_strlit("DaemonenJaeger");
    reveal_strlit("Blutkrieger");
    reveal_strlit("Lebenshueter");
    reveal_strlit("Sturmrufer");
    assert("Leibwaechter"@.len() == 12);
    assert("Gladiator"@.len() == 9);
    assert("Bogenschuetze"@.len() == 13);
    assert("Attentaeter"@.len() == 11);
    assert("DaemonenJaeger"@.len() == 14);
    assert("Blutkrieger"@.len() == 11);
    assert("Lebenshueter"@.len() == 12);
    assert("Sturmrufer"@.len() == 10);
    assert("Leibwaechter"@[2] != "Lebenshueter"@[2]);
    assert("Attentaeter"@[0] != "Blutkrieger"@[0]);
}

/// A specialization is valid for a class exactly when it is one of the two that
/// `from_class_and_index` gives for that class, and it is found at its own index.
pub proof fn lemma_valid_iff_listed(s: Specialization, c: CharacterClass)
    ensures
        (spec_class_of(s) == c) <==> (spec_specialization(c, 0) == Some(s)
            || spec_specialization(c, 1) == Some(s)),
        spec_specialization(spec_class_of(s), spec_index_of(s)) == Some(s),
{
}

/// Every position past the second of a class holds no specialization.
pub proof fn lemma_two_per_class(c: CharacterClass, index: u8)
    ensures
        spec_specialization(c, index) is Some <==> index < 2,
        spec_specialization(c, index) matches Some(s) ==> spec_class_of(s) == c
            && spec_index_of(s) == index,
{
}

} // verus!
