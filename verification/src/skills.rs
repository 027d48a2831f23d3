//! Skills: five per specialization, with their costs and effects.
//!
//! Times, costs, distances and factors are kept as whole hundredths of their unit
//! (seconds, mana points, metres, fractions), so that 1.5 seconds is `150`.

use vstd::prelude::*;
use crate::specialization::Specialization;
use crate::text::spec_decimal;

verus! {

#[derive(Debug, Clone, Copy, PartialEq, Eq, Structural)]
pub enum SkillId {
    Schildwall, Provokation, Erderschuetterung, EiserneHaut, LetzteBastion,
    Wirbelsturm, Kriegsschrei, Hinrichtung, Raserei, ToedlicherStoss,
    Praezisionsschuss, Pfeilhagel, Giftpfeil, Rueckwaertssprung, Durchschlag,
    Schattenschritt, Dolchwirbel, ToedlicheGifte, Unsichtbarkeit, Gnadenstoss,
    Flammenschlag, Seelenraub, Zauberklinge, DunklerSchutz, DaemonischeVerwandlung,
    Blutgier, Seelenketten, Vampirschlag, Furchtaura, Seelenernte,
    HeilendeWelle, Naturschild, Erneuerung, SegnungDerNatur, Wiedergeburt,
    Blitzschlag, Kettenblitz, Tornado, Erdspiesse, ZornDerElemente,
}

/// The skills of a specialization, in the order in which they unlock.
pub open spec fn spec_skills(s: Specialization) -> Seq<SkillId> {
    match s {
        Specialization::Leibwaechter => seq![
            SkillId::Schildwall, SkillId::Provokation, SkillId::Erderschuetterung, SkillId::EiserneHaut, SkillId::LetzteBastion,
        ],
        Specialization::Gladiator => seq![
            SkillId::Wirbelsturm, SkillId::Kriegsschrei, SkillId::Hinrichtung, SkillId::Raserei, SkillId::ToedlicherStoss,
        ],
        Specialization::Bogenschuetze => seq![
            SkillId::Praezisionsschuss, SkillId::Pfeilhagel, SkillId::Giftpfeil, SkillId::Rueckwaertssprung, SkillId::Durchschlag,
        ],
        Specialization::Attentaeter => seq![
            SkillId::Schattenschritt, SkillId::Dolchwirbel, SkillId::ToedlicheGifte, SkillId::Unsichtbarkeit, SkillId::Gnadenstoss,
        ],
        Specialization::DaemonenJaeger => seq![
            SkillId::Flammenschlag, SkillId::Seelenraub, SkillId::Zauberklinge, SkillId::DunklerSchutz, SkillId::DaemonischeVerwandlung,
        ],
        Specialization::Blutkrieger => seq![
            SkillId::Blutgier, SkillId::Seelenketten, SkillId::Vampirschlag, SkillId::Furchtaura, SkillId::Seelenernte,
        ],
        Specialization::Lebenshueter => seq![
            SkillId::HeilendeWelle, SkillId::Naturschild, SkillId::Erneuerung, SkillId::SegnungDerNatur, SkillId::Wiedergeburt,
        ],
        Specialization::Sturmrufer => seq![
            SkillId::Blitzschlag, SkillId::Kettenblitz, SkillId::Tornado, SkillId::Erdspiesse, SkillId::ZornDerElemente,
        ],
    }
}

/// The specialization a skill belongs to.
pub open spec fn spec_skill_owner(k: SkillId) -> Specialization {
    match k {
        SkillId::Schildwall | SkillId::Provokation | SkillId::Erderschuetterung | SkillId::EiserneHaut | SkillId::LetzteBastion => Specialization::Leibwaechter,
        SkillId::Wirbelsturm | SkillId::Kriegsschrei | SkillId::Hinrichtung | SkillId::Raserei | SkillId::ToedlicherStoss => Specialization::Gladiator,
        SkillId::Praezisionsschuss | SkillId::Pfeilhagel | SkillId::Giftpfeil | SkillId::Rueckwaertssprung | SkillId::Durchschlag => Specialization::Bogenschuetze,
        SkillId::Schattenschritt | SkillId::Dolchwirbel | SkillId::ToedlicheGifte | SkillId::Unsichtbarkeit | SkillId::Gnadenstoss => Specialization::Attentaeter,
        SkillId::Flammenschlag | SkillId::Seelenraub | SkillId::Zauberklinge | SkillId::DunklerSchutz | SkillId::DaemonischeVerwandlung => Specialization::DaemonenJaeger,
        SkillId::Blutgier | SkillId::Seelenketten | SkillId::Vampirschlag | SkillId::Furchtaura | SkillId::Seelenernte => Specialization::Blutkrieger,
        SkillId::HeilendeWelle | SkillId::Naturschild | SkillId::Erneuerung | SkillId::SegnungDerNatur | SkillId::Wiedergeburt => Specialization::Lebenshueter,
        SkillId::Blitzschlag | SkillId::Kettenblitz | SkillId::Tornado | SkillId::Erdspiesse | SkillId::ZornDerElemente => Specialization::Sturmrufer,
    }
}

/// The position of a skill among the five of its specialization.
pub open spec fn spec_skill_slot(k: SkillId) -> int {
    match k {
        SkillId::Schildwall | SkillId::Wirbelsturm | SkillId::Praezisionsschuss | SkillId::Schattenschritt | SkillId::Flammenschlag | SkillId::Blutgier | SkillId::HeilendeWelle | SkillId::Blitzschlag => 0,
        SkillId::Provokation | SkillId::Kriegsschrei | SkillId::Pfeilhagel | SkillId::Dolchwirbel | SkillId::Seelenraub | SkillId::Seelenketten | SkillId::Naturschild | SkillId::Kettenblitz => 1,
        SkillId::Erderschuetterung | SkillId::Hinrichtung | SkillId::Giftpfeil | SkillId::ToedlicheGifte | SkillId::Zauberklinge | SkillId::Vampirschlag | SkillId::Erneuerung | SkillId::Tornado => 2,
        SkillId::EiserneHaut | SkillId::Raserei | SkillId::Rueckwaertssprung | SkillId::Unsichtbarkeit | SkillId::DunklerSchutz | SkillId::Furchtaura | SkillId::SegnungDerNatur | SkillId::Erdspiesse => 3,
        SkillId::LetzteBastion | SkillId::ToedlicherStoss | SkillId::Durchschlag | SkillId::Gnadenstoss | SkillId::DaemonischeVerwandlung | SkillId::Seelenernte | SkillId::Wiedergeburt | SkillId::ZornDerElemente => 4,
    }
}

/// What a skill does, beyond its plain damage.
#[derive(Debug, Clone, Copy, PartialEq, Eq, Structural)]
pub enum SkillEffect {
    NoEffect,
    /// radius
    AreaDamage(u32),
    /// amount, duration
    DamageReduction(u32, u32),
    /// radius
    Taunt(u32),
    /// duration, radius
    Stun(u32, u32),
    /// duration
    CrowdControlImmunity(u32),
    /// health, duration of the defence buff
    Revive(u32, u32),
    /// amount, duration, radius
    DefenseReduction(u32, u32, u32),
    /// health threshold, bonus factor
    ExecuteDamage(u32, u32),
    /// amount, duration
    AttackSpeedBuff(u32, u32),
    /// distance, stun duration
    DashStun(u32, u32),
}

/// Description of a skill.
#[derive(Debug, Clone, Copy)]
pub struct SkillInfo {
    pub name: &'static str,
    pub description: &'static str,
    pub cooldown_hundredths: u32,
    pub mana_cost_hundredths: u32,
    pub required_level: i32,
    pub damage_multiplier_hundredths: u32,
    pub effect: SkillEffect,
}

/// The mathematical content of a `SkillInfo`.
pub struct SkillInfoView {
    pub name: Seq<char>,
    pub description: Seq<char>,
    pub cooldown_hundredths: u32,
    pub mana_cost_hundredths: u32,
    pub required_level: i32,
    pub damage_multiplier_hundredths: u32,
    pub effect: SkillEffect,
}

impl View for SkillInfo {
    type V = SkillInfoView;

    open spec fn view(&self) -> SkillInfoView {
        SkillInfoView {
            name: self.name@,
            description: self.description@,
            cooldown_hundredths: self.cooldown_hundredths,
            mana_cost_hundredths: self.mana_cost_hundredths,
            required_level: self.required_level,
            damage_multiplier_hundredths: self.damage_multiplier_hundredths,
            effect: self.effect,
        }
    }
}

/// The name under which a skill is shown.
pub open spec fn spec_skill_name(k: SkillId) -> Seq<char> {
    match k {
        SkillId::Schildwall => "Schildwall"@,
        SkillId::Provokation => "Provokation"@,
        SkillId::Erderschuetterung => "Erderschütterung"@,
        SkillId::EiserneHaut => "Eiserne Haut"@,
        SkillId::LetzteBastion => "Letzte Bastion"@,
        SkillId::Wirbelsturm => "Wirbelsturm"@,
        SkillId::Kriegsschrei => "Kriegsschrei"@,
        SkillId::Hinrichtung => "Hinrichtung"@,
        SkillId::Raserei => "Raserei"@,
        SkillId::ToedlicherStoss => "Tödlicher Stoß"@,
        SkillId::Praezisionsschuss => "Präzisionsschuss"@,
        SkillId::Pfeilhagel => "Pfeilhagel"@,
        SkillId::Giftpfeil => "Giftpfeil"@,
        SkillId::Rueckwaertssprung => "Rückwärtssprung"@,
        SkillId::Durchschlag => "Durchschlag"@,
        SkillId::Schattenschritt => "Schattenschritt"@,
        SkillId::Dolchwirbel => "Dolchwirbel"@,
        SkillId::ToedlicheGifte => "Tödliche Gifte"@,
        SkillId::Unsichtbarkeit => "Unsichtbarkeit"@,
        SkillId::Gnadenstoss => "Gnadenstoß"@,
        SkillId::Flammenschlag => "Flammenschlag"@,
        SkillId::Seelenraub => "Seelenraub"@,
        SkillId::Zauberklinge => "Zauberklinge"@,
        SkillId::DunklerSchutz => "Dunkler Schutz"@,
        SkillId::DaemonischeVerwandlung => "Dämonische Verwandlung"@,
        SkillId::Blutgier => "Blutgier"@,
        SkillId::Seelenketten => "Seelenketten"@,
        SkillId::Vampirschlag => "Vampirschlag"@,
        SkillId::Furchtaura => "Furchtaura"@,
        SkillId::Seelenernte => "Seelenernte"@,
        SkillId::HeilendeWelle => "Heilende Welle"@,
        SkillId::Naturschild => "Naturschild"@,
        SkillId::Erneuerung => "Erneuerung"@,
        SkillId::SegnungDerNatur => "Segnung der Natur"@,
        SkillId::Wiedergeburt => "Wiedergeburt"@,
        SkillId::Blitzschlag => "Blitzschlag"@,
        SkillId::Kettenblitz => "Kettenblitz"@,
        SkillId::Tornado => "Tornado"@,
        SkillId::Erdspiesse => "Erdspieße"@,
        SkillId::ZornDerElemente => "Zorn der Elemente"@,
    }
}

/// The level at which the skill in position `slot` unlocks.
fn unlock_level(slot: u8) -> (r: i32)
    ensures
        r == spec_unlock_level(slot as int),
{
    if slot == 0 {
        5
    } else if slot == 1 {
        10
    } else if slot == 2 {
        15
    } else if slot == 3 {
        25
    } else {
        40
    }
}

/// Whether a skill's effect is the one its description promises. The numbers of the effect
/// are the ones the description names (durations in whole seconds, radii in whole metres),
/// an execution bonus applies only below a share of health under 100%, and a reduction takes
/// away less than 100%.
pub open spec fn effect_agrees_with_description(info: SkillInfoView) -> bool {
    match info.effect {
        SkillEffect::ExecuteDamage(threshold, bonus) => {
            &&& 0 < threshold < 100
            &&& 0 < bonus
            &&& info.description == "Mächtiger Einzelschlag, +"@ + spec_decimal(bonus as int)
                + "% Schaden gegen Feinde unter "@ + spec_decimal(threshold as int) + "% HP"@
        },
        SkillEffect::DamageReduction(amount, duration) => {
            &&& 0 < amount < 100
            &&& duration % 100 == 0
            &&& info.description == "Reduziert eingehenden Schaden um "@ + spec_decimal(
                amount as int,
            ) + "% für "@ + spec_decimal(duration as int / 100) + " Sekunden"@
        },
        SkillEffect::DefenseReduction(amount, duration, radius) => {
            &&& 0 < amount < 100
            &&& duration % 100 == 0
            &&& radius % 100 == 0
            &&& info.description == "Reduziert Verteidigung aller Feinde im Umkreis ("@
                + spec_decimal(radius as int / 100) + "m) um "@ + spec_decimal(amount as int) + "% für "@
                + spec_decimal(duration as int / 100) + "s"@
        },
        SkillEffect::AttackSpeedBuff(amount, duration) => {
            &&& 0 < amount
            &&& duration % 100 == 0
            &&& info.description == "+"@ + spec_decimal(amount as int) + "% Angriffsgeschwindigkeit für "@
                + spec_decimal(duration as int / 100) + " Sekunden"@
        },
        _ => true,
    }
}

/// The description of every skill. Skills whose effect the game does not define yet have
/// their own name and the unlock level of their position, with a standard cost and no effect.
pub open spec fn spec_skill_info(k: SkillId) -> SkillInfoView {
    match k {
        SkillId::Schildwall => SkillInfoView {
            name: "Schildwall"@,
            description: "Reduziert eingehenden Schaden um 50% für 5 Sekunden"@,
            cooldown_hundredths: 1500,
            mana_cost_hundredths: 2000,
            required_level: 5,
            damage_multiplier_hundredths: 0,
            effect: SkillEffect::DamageReduction(50, 500),
        },
        SkillId::Provokation => SkillInfoView {
            name: "Provokation"@,
            description: "Zwingt alle Monster im Umkreis (10m) dich anzugreifen"@,
            cooldown_hundredths: 1000,
            mana_cost_hundredths: 2500,
            required_level: 10,
            damage_multiplier_hundredths: 0,
            effect: SkillEffect::Taunt(1000),
        },
        SkillId::Erderschuetterung => SkillInfoView {
            name: "Erderschütterung"@,
            description: "Schlägt auf den Boden, betäubt Monster im Umkreis (5m) für 2s"@,
            cooldown_hundredths: 2000,
            mana_cost_hundredths: 4000,
            required_level: 15,
            damage_multiplier_hundredths: 150,
            effect: SkillEffect::Stun(200, 500),
        },
        SkillId::EiserneHaut => SkillInfoView {
            name: "Eiserne Haut"@,
            description: "Immun gegen Crowd Control für 3s"@,
            cooldown_hundredths: 3000,
            mana_cost_hundredths: 5000,
            required_level: 25,
            damage_multiplier_hundredths: 0,
            effect: SkillEffect::CrowdControlImmunity(300),
        },
        SkillId::LetzteBastion => SkillInfoView {
            name: "Letzte Bastion"@,
            description: "Bei tödlichem Schaden: Überlebt mit 1 HP, +100% Verteidigung für 5s"@,
            cooldown_hundredths: 6000,
            mana_cost_hundredths: 8000,
            required_level: 40,
            damage_multiplier_hundredths: 0,
            effect: SkillEffect::Revive(100, 500),
        },
        SkillId::Wirbelsturm => SkillInfoView {
            name: "Wirbelsturm"@,
            description: "Rotiert mit Schwert, trifft alle Feinde im Umkreis (3m)"@,
            cooldown_hundredths: 1200,
            mana_cost_hundredths: 3000,
            required_level: 5,
            damage_multiplier_hundredths: 120,
            effect: SkillEffect::AreaDamage(300),
        },
        SkillId::Kriegsschrei => SkillInfoView {
            name: "Kriegsschrei"@,
            description: "Reduziert Verteidigung aller Feinde im Umkreis (8m) um 30% für 6s"@,
            cooldown_hundredths: 2000,
            mana_cost_hundredths: 2500,
            required_level: 10,
            damage_multiplier_hundredths: 0,
            effect: SkillEffect::DefenseReduction(30, 600, 800),
        },
        SkillId::Hinrichtung => SkillInfoView {
            name: "Hinrichtung"@,
            description: "Mächtiger Einzelschlag, +100% Schaden gegen Feinde unter 30% HP"@,
            cooldown_hundredths: 1500,
            mana_cost_hundredths: 4500,
            required_level: 15,
            damage_multiplier_hundredths: 200,
            effect: SkillEffect::ExecuteDamage(30, 100),
        },
        SkillId::Raserei => SkillInfoView {
            name: "Raserei"@,
            description: "+50% Angriffsgeschwindigkeit für 8 Sekunden"@,
            cooldown_hundredths: 2500,
            mana_cost_hundredths: 4000,
            required_level: 25,
            damage_multiplier_hundredths: 0,
            effect: SkillEffect::AttackSpeedBuff(50, 800),
        },
        SkillId::ToedlicherStoss => SkillInfoView {
            name: "Tödlicher Stoß"@,
            description: "Stürmt zum Ziel (bis 15m), betäubt für 1.5s"@,
            cooldown_hundredths: 3000,
            mana_cost_hundredths: 7000,
            required_level: 40,
            damage_multiplier_hundredths: 250,
            effect: SkillEffect::DashStun(1500, 150),
        },
        _ => SkillInfoView {
            name: spec_skill_name(k),
            description: "Not implemented yet"@,
            cooldown_hundredths: 1000,
            mana_cost_hundredths: 3000,
            required_level: spec_unlock_level(spec_skill_slot(k)),
            damage_multiplier_hundredths: 100,
            effect: SkillEffect::NoEffect,
        },
    }
}

impl SkillId {
    /// The name under which the skill is shown.
    pub fn name(&self) -> (r: &'static str)
        ensures
            r@ == spec_skill_name(*self),
    {
        match self {
            SkillId::Schildwall => "Schildwall",
            SkillId::Provokation => "Provokation",
            SkillId::Erderschuetterung => "Erderschütterung",
            SkillId::EiserneHaut => "Eiserne Haut",
            SkillId::LetzteBastion => "Letzte Bastion",
            SkillId::Wirbelsturm => "Wirbelsturm",
            SkillId::Kriegsschrei => "Kriegsschrei",
            SkillId::Hinrichtung => "Hinrichtung",
            SkillId::Raserei => "Raserei",
            SkillId::ToedlicherStoss => "Tödlicher Stoß",
            SkillId::Praezisionsschuss => "Präzisionsschuss",
            SkillId::Pfeilhagel => "Pfeilhagel",
            SkillId::Giftpfeil => "Giftpfeil",
            SkillId::Rueckwaertssprung => "Rückwärtssprung",
            SkillId::Durchschlag => "Durchschlag",
            SkillId::Schattenschritt => "Schattenschritt",
            SkillId::Dolchwirbel => "Dolchwirbel",
            SkillId::ToedlicheGifte => "Tödliche Gifte",
            SkillId::Unsichtbarkeit => "Unsichtbarkeit",
            SkillId::Gnadenstoss => "Gnadenstoß",
            SkillId::Flammenschlag => "Flammenschlag",
            SkillId::Seelenraub => "Seelenraub",
            SkillId::Zauberklinge => "Zauberklinge",
            SkillId::DunklerSchutz => "Dunkler Schutz",
            SkillId::DaemonischeVerwandlung => "Dämonische Verwandlung",
            SkillId::Blutgier => "Blutgier",
            SkillId::Seelenketten => "Seelenketten",
            SkillId::Vampirschlag => "Vampirschlag",
            SkillId::Furchtaura => "Furchtaura",
            SkillId::Seelenernte => "Seelenernte",
            SkillId::HeilendeWelle => "Heilende Welle",
            SkillId::Naturschild => "Naturschild",
            SkillId::Erneuerung => "Erneuerung",
            SkillId::SegnungDerNatur => "Segnung der Natur",
            SkillId::Wiedergeburt => "Wiedergeburt",
            SkillId::Blitzschlag => "Blitzschlag",
            SkillId::Kettenblitz => "Kettenblitz",
            SkillId::Tornado => "Tornado",
            SkillId::Erdspiesse => "Erdspieße",
            SkillId::ZornDerElemente => "Zorn der Elemente",
        }
    }

    /// The position (0 to 4) of the skill among the five of its specialization.
    pub fn slot(&self) -> (r: u8)
        ensures
            r as int == spec_skill_slot(*self),
    {
        match self {
            SkillId::Schildwall | SkillId::Wirbelsturm | SkillId::Praezisionsschuss | SkillId::Schattenschritt | SkillId::Flammenschlag | SkillId::Blutgier | SkillId::HeilendeWelle | SkillId::Blitzschlag => 0,
            SkillId::Provokation | SkillId::Kriegsschrei | SkillId::Pfeilhagel | SkillId::Dolchwirbel | SkillId::Seelenraub | SkillId::Seelenketten | SkillId::Naturschild | SkillId::Kettenblitz => 1,
            SkillId::Erderschuetterung | SkillId::Hinrichtung | SkillId::Giftpfeil | SkillId::ToedlicheGifte | SkillId::Zauberklinge | SkillId::Vampirschlag | SkillId::Erneuerung | SkillId::Tornado => 2,
            SkillId::EiserneHaut | SkillId::Raserei | SkillId::Rueckwaertssprung | SkillId::Unsichtbarkeit | SkillId::DunklerSchutz | SkillId::Furchtaura | SkillId::SegnungDerNatur | SkillId::Erdspiesse => 3,
            SkillId::LetzteBastion | SkillId::ToedlicherStoss | SkillId::Durchschlag | SkillId::Gnadenstoss | SkillId::DaemonischeVerwandlung | SkillId::Seelenernte | SkillId::Wiedergeburt | SkillId::ZornDerElemente => 4,
        }
    }

    pub fn info(&self) -> (r: SkillInfo)
        ensures
            r@ == spec_skill_info(*self),
            effect_agrees_with_description(r@),
    {
        proof {
            lemma_effects_agree_with_descriptions(*self);
        }
        match self {
            SkillId::Schildwall => SkillInfo {
                name: "Schildwall",
                description: "Reduziert eingehenden Schaden um 50% für 5 Sekunden",
                cooldown_hundredths: 1500,
                mana_cost_hundredths: 2000,
                required_level: 5,
                damage_multiplier_hundredths: 0,
                effect: SkillEffect::DamageReduction(50, 500),
            },
            SkillId::Provokation => SkillInfo {
                name: "Provokation",
                description: "Zwingt alle Monster im Umkreis (10m) dich anzugreifen",
                cooldown_hundredths: 1000,
                mana_cost_hundredths: 2500,
                required_level: 10,
                damage_multiplier_hundredths: 0,
                effect: SkillEffect::Taunt(1000),
            },
            SkillId::Erderschuetterung => SkillInfo {
                name: "Erderschütterung",
                description: "Schlägt auf den Boden, betäubt Monster im Umkreis (5m) für 2s",
                cooldown_hundredths: 2000,
                mana_cost_hundredths: 4000,
                required_level: 15,
                damage_multiplier_hundredths: 150,
                effect: SkillEffect::Stun(200, 500),
            },
            SkillId::EiserneHaut => SkillInfo {
                name: "Eiserne Haut",
                description: "Immun gegen Crowd Control für 3s",
                cooldown_hundredths: 3000,
                mana_cost_hundredths: 5000,
                required_level: 25,
                damage_multiplier_hundredths: 0,
                effect: SkillEffect::CrowdControlImmunity(300),
            },
            SkillId::LetzteBastion => SkillInfo {
                name: "Letzte Bastion",
                description: "Bei tödlichem Schaden: Überlebt mit 1 HP, +100% Verteidigung für 5s",
                cooldown_hundredths: 6000,
                mana_cost_hundredths: 8000,
                required_level: 40,
                damage_multiplier_hundredths: 0,
                effect: SkillEffect::Revive(100, 500),
            },
            SkillId::Wirbelsturm => SkillInfo {
                name: "Wirbelsturm",
                description: "Rotiert mit Schwert, trifft alle Feinde im Umkreis (3m)",
                cooldown_hundredths: 1200,
                mana_cost_hundredths: 3000,
                required_level: 5,
                damage_multiplier_hundredths: 120,
                effect: SkillEffect::AreaDamage(300),
            },
            SkillId::Kriegsschrei => SkillInfo {
                name: "Kriegsschrei",
                description: "Reduziert Verteidigung aller Feinde im Umkreis (8m) um 30% für 6s",
                cooldown_hundredths: 2000,
                mana_cost_hundredths: 2500,
                required_level: 10,
                damage_multiplier_hundredths: 0,
                effect: SkillEffect::DefenseReduction(30, 600, 800),
            },
            SkillId::Hinrichtung => SkillInfo {
                name: "Hinrichtung",
                description: "Mächtiger Einzelschlag, +100% Schaden gegen Feinde unter 30% HP",
                cooldown_hundredths: 1500,
                mana_cost_hundredths: 4500,
                required_level: 15,
                damage_multiplier_hundredths: 200,
                effect: SkillEffect::ExecuteDamage(30, 100),
            },
            SkillId::Raserei => SkillInfo {
                name: "Raserei",
                description: "+50% Angriffsgeschwindigkeit für 8 Sekunden",
                cooldown_hundredths: 2500,
                mana_cost_hundredths: 4000,
                required_level: 25,
                damage_multiplier_hundredths: 0,
                effect: SkillEffect::AttackSpeedBuff(50, 800),
            },
            SkillId::ToedlicherStoss => SkillInfo {
                name: "Tödlicher Stoß",
                description: "Stürmt zum Ziel (bis 15m), betäubt für 1.5s",
                cooldown_hundredths: 3000,
                mana_cost_hundredths: 7000,
                required_level: 40,
                damage_multiplier_hundredths: 250,
                effect: SkillEffect::DashStun(1500, 150),
            },
            _ => SkillInfo {
                name: self.name(),
                description: "Not implemented yet",
                cooldown_hundredths: 1000,
                mana_cost_hundredths: 3000,
                required_level: unlock_level(self.slot()),
                damage_multiplier_hundredths: 100,
                effect: SkillEffect::NoEffect,
            },
        }
    }
}

/// The level at which the skill in each of the five positions unlocks.
pub open spec fn spec_unlock_level(slot: int) -> i32 {
    if slot == 0 {
        5
    } else if slot == 1 {
        10
    } else if slot == 2 {
        15
    } else if slot == 3 {
        25
    } else {
        40
    }
}

/// Each specialization has five skills, and every skill belongs to exactly one
/// specialization, at the position recorded for it.
pub proof fn lemma_skill_ownership(s: Specialization, k: SkillId)
    ensures
        spec_skills(s).len() == 5,
        spec_skills(spec_skill_owner(k))[spec_skill_slot(k)] == k,
        0 <= spec_skill_slot(k) < 5,
        spec_skills(s).contains(k) <==> spec_skill_owner(k) == s,
{
    assert(forall|i: int| 0 <= i < 5 ==> spec_skill_owner(#[trigger] spec_skills(s)[i]) == s);
    if spec_skill_owner(k) == s {
        assert(spec_skills(s)[spec_skill_slot(k)] == k);
    }
}

/// Every specialization's five skills unlock at levels 5, 10, 15, 25 and 40, in their order,
/// and each has a name of its own.
pub proof fn lemma_unlock_levels(s: Specialization, i: int)
    requires
        0 <= i < 5,
    ensures
        spec_skill_info(spec_skills(s)[i]).required_level == spec_unlock_level(i),
        spec_skill_info(spec_skills(s)[i]).name == spec_skill_name(spec_skills(s)[i]),
        spec_skill_name(spec_skills(s)[i]) != "Unknown"@,
{
    reveal_strlit("Unknown");
    reveal_strlit("Schildwall");
    reveal_strlit("Provokation");
    reveal_strlit("Erderschütterung");
    reveal_strlit("Eiserne Haut");
    reveal_strlit("Letzte Bastion");
    reveal_strlit("Wirbelsturm");
    reveal_strlit("Kriegsschrei");
    reveal_strlit("Hinrichtung");
    reveal_strlit("Raserei");
    reveal_strlit("Tödlicher Stoß");
    reveal_strlit("Präzisionsschuss");
    reveal_strlit("Pfeilhagel");
    reveal_strlit("Giftpfeil");
    reveal_strlit("Rückwärtssprung");
    reveal_strlit("Durchschlag");
    reveal_strlit("Schattenschritt");
    reveal_strlit("Dolchwirbel");
    reveal_strlit("Tödliche Gifte");
    reveal_strlit("Unsichtbarkeit");
    reveal_strlit("Gnadenstoß");
    reveal_strlit("Flammenschlag");
    reveal_strlit("Seelenraub");
    reveal_strlit("Zauberklinge");
    reveal_strlit("Dunkler Schutz");
    reveal_strlit("Dämonische Verwandlung");
    reveal_strlit("Blutgier");
    reveal_strlit("Seelenketten");
    reveal_strlit("Vampirschlag");
    reveal_strlit("Furchtaura");
    reveal_strlit("Seelenernte");
    reveal_strlit("Heilende Welle");
    reveal_strlit("Naturschild");
    reveal_strlit("Erneuerung");
    reveal_strlit("Segnung der Natur");
    reveal_strlit("Wiedergeburt");
    reveal_strlit("Blitzschlag");
    reveal_strlit("Kettenblitz");
    reveal_strlit("Tornado");
    reveal_strlit("Erdspieße");
    reveal_strlit("Zorn der Elemente");
    let k = spec_skills(s)[i];
    lemma_skill_ownership(s, k);
    assert(spec_skill_slot(k) == i);
    assert(spec_skill_name(k).len() != 7 || spec_skill_name(k)[0] != 'U');
}

/// Every skill does what its description says: for each skill whose effect carries numbers
/// (an execution bonus, a damage or defence reduction, an attack speed buff), those numbers
/// are the ones its description names, and the shares lie under 100%.
pub proof fn lemma_effects_agree_with_descriptions(k: SkillId)
    ensures
        effect_agrees_with_description(spec_skill_info(k)),
{
    reveal_with_fuel(crate::text::spec_decimal_nat, 4);
    match k {
        SkillId::Schildwall => {
            reveal_strlit("Reduziert eingehenden Schaden um 50% für 5 Sekunden");
            reveal_strlit("Reduziert eingehenden Schaden um ");
            reveal_strlit("% für ");
            reveal_strlit(" Sekunden");
            assert(spec_skill_info(k).description =~= "Reduziert eingehenden Schaden um "@
                + spec_decimal(50) + "% für "@ + spec_decimal(5) + " Sekunden"@);
        },
        SkillId::Kriegsschrei => {
            reveal_strlit("Reduziert Verteidigung aller Feinde im Umkreis (8m) um 30% für 6s");
            reveal_strlit("Reduziert Verteidigung aller Feinde im Umkreis (");
            reveal_strlit("m) um ");
            reveal_strlit("% für ");
            reveal_strlit("s");
            assert(spec_skill_info(k).description =~= "Reduziert Verteidigung aller Feinde im Umkreis ("@
                + spec_decimal(8) + "m) um "@ + spec_decimal(30) + "% für "@ + spec_decimal(6) + "s"@);
        },
        SkillId::Hinrichtung => {
            reveal_strlit("Mächtiger Einzelschlag, +100% Schaden gegen Feinde unter 30% HP");
            reveal_strlit("Mächtiger Einzelschlag, +");
            reveal_strlit("% Schaden gegen Feinde unter ");
            reveal_strlit("% HP");
            assert(spec_skill_info(k).description =~= "Mächtiger Einzelschlag, +"@ + spec_decimal(100)
                + "% Schaden gegen Feinde unter "@ + spec_decimal(30) + "% HP"@);
        },
        SkillId::Raserei => {
            reveal_strlit("+50% Angriffsgeschwindigkeit für 8 Sekunden");
            reveal_strlit("+");
            reveal_strlit("% Angriffsgeschwindigkeit für ");
            reveal_strlit(" Sekunden");
            assert(spec_skill_info(k).description =~= "+"@ + spec_decimal(50)
                + "% Angriffsgeschwindigkeit für "@ + spec_decimal(8) + " Sekunden"@);
        },
        _ => {},
    }
}

} // verus!
