use mmorpg::class::CharacterClass;
use mmorpg::input::{dev_xp_amount, DevButton};
use mmorpg::leveling::{apply_experience, calculate_stats_for_level, XpTable, MAX_LEVEL};
use mmorpg::skills::{SkillEffect, SkillId};
use mmorpg::specialization::Specialization;
use mmorpg::world::gain_experience;
use mmorpg::protocol::ServerMessage;

/// The amounts of the game's curve, 100 * level^2.8, for levels 0 to 100.
fn game_table() -> XpTable {
    let mut required = Vec::new();
    for level in 0..=100i32 {
        let xp = if level <= 1 { 100 } else { (100.0 * (level as f64).powf(2.8)) as i64 };
        required.push(xp);
    }
    XpTable::new(required).unwrap()
}

/// A flat table: every level needs 100.
fn flat_table() -> XpTable {
    XpTable::new(vec![100; 101]).unwrap()
}

#[test]
fn xp_table_refuses_bad_input() {
    assert!(XpTable::new(vec![100; 100]).is_none());
    assert!(XpTable::new(vec![100; 102]).is_none());
    let mut with_zero = vec![100; 101];
    with_zero[50] = 0;
    assert!(XpTable::new(with_zero).is_none());
    assert!(XpTable::new(vec![1; 101]).is_some());
}

#[test]
fn xp_for_level_follows_the_curve() {
    let table = game_table();
    assert_eq!(table.xp_for_level(1), 100);
    assert_eq!(table.xp_for_level(0), 100);
    assert_eq!(table.xp_for_level(-3), 100);
    assert_eq!(table.xp_for_level(2), 696);
    assert_eq!(table.xp_for_level(10), 63095);
    assert_eq!(table.xp_needed_after(1), 696);
    assert_eq!(table.xp_needed_after(MAX_LEVEL), 0);
}

#[test]
fn experience_levels_up_and_carries_over() {
    let table = flat_table();
    let out = apply_experience(1, 50, 60, &table);
    assert_eq!(out.new_level, 2);
    assert_eq!(out.new_total, 10);
    assert!(out.level_changed);
    assert_eq!(out.xp_needed, 100);

    let out = apply_experience(1, 0, 350, &table);
    assert_eq!(out.new_level, 4);
    assert_eq!(out.new_total, 50);

    let out = apply_experience(3, 10, 20, &table);
    assert_eq!(out.new_level, 3);
    assert_eq!(out.new_total, 30);
    assert!(!out.level_changed);
}

#[test]
fn experience_below_zero_costs_one_level() {
    let table = flat_table();
    let out = apply_experience(5, 10, -11, &table);
    assert_eq!(out.new_level, 4);
    assert_eq!(out.new_total, 0);
    assert!(out.level_changed);

    let out = apply_experience(1, 10, -500, &table);
    assert_eq!(out.new_level, 1);
    assert_eq!(out.new_total, 0);
    assert!(!out.level_changed);
}

#[test]
fn experience_stops_at_the_highest_level() {
    let table = flat_table();
    let out = apply_experience(99, 0, 1_000, &table);
    assert_eq!(out.new_level, 100);
    assert_eq!(out.new_total, 900);
    assert_eq!(out.xp_needed, 0);
}

#[test]
fn stats_grow_by_class() {
    assert_eq!(calculate_stats_for_level(1, &CharacterClass::Krieger), (100, 100, 100));
    assert_eq!(calculate_stats_for_level(10, &CharacterClass::Krieger), (280, 145, 208));
    assert_eq!(calculate_stats_for_level(10, &CharacterClass::Ninja), (208, 172, 235));
    assert_eq!(calculate_stats_for_level(10, &CharacterClass::Sura), (235, 208, 190));
    assert_eq!(calculate_stats_for_level(10, &CharacterClass::Schamane), (172, 262, 172));
    let (a, _, _) = calculate_stats_for_level(20, &CharacterClass::Sura);
    let (b, _, _) = calculate_stats_for_level(21, &CharacterClass::Sura);
    assert!(a <= b);
}

#[test]
fn gain_experience_reports_level_up() {
    let table = flat_table();
    let report = gain_experience(4, 90, CharacterClass::Ninja, 20, &table);
    assert_eq!(report.outcome.new_level, 5);
    match report.gained {
        ServerMessage::ExperienceGained { amount, new_total, xp_needed } => {
            assert_eq!(amount, 20);
            assert_eq!(new_total, 10);
            assert_eq!(xp_needed, 100);
        }
        _ => panic!("expected ExperienceGained"),
    }
    match report.level_up {
        Some(ServerMessage::LevelUp { new_level, new_max_health, new_max_mana, new_max_stamina }) => {
            assert_eq!(new_level, 5);
            assert_eq!(new_max_health, 148);
            assert_eq!(new_max_mana, 132);
            assert_eq!(new_max_stamina, 160);
        }
        _ => panic!("expected LevelUp"),
    }

    let report = gain_experience(4, 10, CharacterClass::Ninja, 20, &table);
    assert!(report.level_up.is_none());
}

#[test]
fn dev_buttons_ask_for_the_right_amounts() {
    assert_eq!(dev_xp_amount(DevButton::AddLevel, 3, 40, 2_153), Some(2_113));
    assert_eq!(dev_xp_amount(DevButton::RemoveLevel, 3, 40, 0), Some(-41));
    assert_eq!(dev_xp_amount(DevButton::RemoveLevel, 3, 0, 0), Some(-1));
    assert_eq!(dev_xp_amount(DevButton::RemoveLevel, 1, 40, 0), None);
    assert_eq!(dev_xp_amount(DevButton::Add1000XP, 7, 5, 0), Some(1000));
    assert_eq!(dev_xp_amount(DevButton::ResetLevel, 7, 5, 0), Some(-5));
}

#[test]
fn add_level_then_remove_level_round_trip() {
    let table = game_table();
    let next = table.xp_for_level(8);
    let add = dev_xp_amount(DevButton::AddLevel, 7, 1234, next).unwrap();
    let up = apply_experience(7, 1234, add, &table);
    assert_eq!((up.new_level, up.new_total, up.level_changed), (8, 0, true));
    let remove = dev_xp_amount(DevButton::RemoveLevel, 8, 0, 0).unwrap();
    let down = apply_experience(8, 0, remove, &table);
    assert_eq!((down.new_level, down.new_total, down.level_changed), (7, 0, true));
}

#[test]
fn reset_button_keeps_the_level() {
    let table = game_table();
    let amount = dev_xp_amount(DevButton::ResetLevel, 5, 10, 0).unwrap();
    let out = apply_experience(5, 10, amount, &table);
    assert_eq!((out.new_level, out.new_total, out.level_changed), (5, 0, false));
}

#[test]
fn classes_and_their_specializations() {
    assert_eq!(CharacterClass::Krieger.as_str(), "Krieger");
    assert_eq!(CharacterClass::Schamane.as_str(), "Schamane");
    assert_eq!(CharacterClass::Ninja.specializations(), ("Bogenschütze", "Attentäter"));
    assert_eq!(CharacterClass::from_db_str("Sura"), CharacterClass::Sura);
    assert_eq!(CharacterClass::from_db_str("Warrior"), CharacterClass::Krieger);
    assert_eq!(CharacterClass::default(), CharacterClass::Krieger);

    assert_eq!(
        Specialization::from_class_and_index(CharacterClass::Sura, 1),
        Some(Specialization::Blutkrieger)
    );
    assert_eq!(Specialization::from_class_and_index(CharacterClass::Sura, 2), None);
    assert_eq!(Specialization::DaemonenJaeger.name(), "Dämonen-Jäger");
    assert_eq!(Specialization::DaemonenJaeger.as_str(), "DaemonenJaeger");
    assert_eq!(Specialization::from_string("Sturmrufer"), Some(Specialization::Sturmrufer));
    assert_eq!(Specialization::from_string("Sturm"), None);
    assert!(Specialization::Gladiator.is_valid_for_class(CharacterClass::Krieger));
    assert!(!Specialization::Gladiator.is_valid_for_class(CharacterClass::Ninja));
    assert_eq!(
        Specialization::Lebenshueter.description(),
        "Support - Gruppe heilen, Buffs"
    );
}

#[test]
fn stored_names_read_back() {
    let all = [
        Specialization::Leibwaechter,
        Specialization::Gladiator,
        Specialization::Bogenschuetze,
        Specialization::Attentaeter,
        Specialization::DaemonenJaeger,
        Specialization::Blutkrieger,
        Specialization::Lebenshueter,
        Specialization::Sturmrufer,
    ];
    for s in all {
        assert_eq!(Specialization::from_string(s.as_str()), Some(s));
    }
    for c in [CharacterClass::Krieger, CharacterClass::Ninja, CharacterClass::Sura, CharacterClass::Schamane] {
        assert_eq!(CharacterClass::from_db_str(c.as_str()), c);
    }
}

#[test]
fn skills_of_a_specialization() {
    let skills = Specialization::Leibwaechter.skills();
    assert_eq!(
        skills,
        vec![
            SkillId::Schildwall,
            SkillId::Provokation,
            SkillId::Erderschuetterung,
            SkillId::EiserneHaut,
            SkillId::LetzteBastion
        ]
    );
    let info = SkillId::Schildwall.info();
    assert_eq!(info.name, "Schildwall");
    assert_eq!(info.required_level, 5);
    assert_eq!(info.cooldown_hundredths, 1500);
    assert_eq!(info.mana_cost_hundredths, 2000);
    assert_eq!(info.effect, SkillEffect::DamageReduction(50, 500));
    let levels: Vec<i32> = skills.iter().map(|s| s.info().required_level).collect();
    assert_eq!(levels, vec![5, 10, 15, 25, 40]);
}

#[test]
fn every_skill_has_its_own_entry() {
    let all = [
        Specialization::Leibwaechter,
        Specialization::Gladiator,
        Specialization::Bogenschuetze,
        Specialization::Attentaeter,
        Specialization::DaemonenJaeger,
        Specialization::Blutkrieger,
        Specialization::Lebenshueter,
        Specialization::Sturmrufer,
    ];
    for s in all {
        let levels: Vec<i32> = s.skills().iter().map(|k| k.info().required_level).collect();
        assert_eq!(levels, vec![5, 10, 15, 25, 40]);
        for k in s.skills() {
            assert_ne!(k.info().name, "Unknown");
        }
    }
    assert_eq!(SkillId::Pfeilhagel.info().required_level, 10);
    assert_eq!(SkillId::Pfeilhagel.info().name, "Pfeilhagel");
    assert_eq!(SkillId::Erdspiesse.info().name, "Erdspieße");
    assert_eq!(SkillId::ZornDerElemente.info().required_level, 40);
}
