//! Levels, experience and the stats that grow with them.

use vstd::prelude::*;
use crate::class::CharacterClass;

verus! {

/// Highest level a character can reach.
pub const MAX_LEVEL: i32 = 100;

/// Experience needed to reach `level` from the level below it.
/// `required` holds the amounts for levels 2 to 100; every level up to 1 needs 100.
pub open spec fn spec_xp_for_level(required: Seq<i64>, level: int) -> int {
    if level <= 1 {
        100
    } else {
        required[level] as int
    }
}

/// The amounts of experience that each level needs, indexed by level (0 to 100).
pub struct XpTable {
    required: Vec<i64>,
}

impl View for XpTable {
    type V = Seq<i64>;

    closed spec fn view(&self) -> Seq<i64> {
        self.required@
    }
}

impl XpTable {
    /// A table is well formed when it covers levels 0 to 100 and every amount is positive.
    pub open spec fn wf_seq(required: Seq<i64>) -> bool {
        &&& required.len() == 101
        &&& forall|i: int| 0 <= i < 101 ==> required[i] > 0
    }

    #[verifier::type_invariant]
    closed spec fn wf(self) -> bool {
        Self::wf_seq(self.required@)
    }

    /// Builds a table from the amounts for levels 0 to 100; refuses any other length and
    /// any amount that is not positive.
    pub fn new(required: Vec<i64>) -> (r: Option<XpTable>)
        ensures
            r is Some <==> Self::wf_seq(required@),
            r matches Some(t) ==> t@ == required@,
    {
        if required.len() != 101 {
            return None;
        }
        let mut i: usize = 0;
        while i < required.len()
            invariant
                i <= required.len() == 101,
                forall|j: int| 0 <= j < i ==> required@[j] > 0,
            decreases required.len() - i,
        {
            if required[i] <= 0 {
                assert(!(required@[i as int] > 0));
                return None;
            }
            i = i + 1;
        }
        Some(XpTable { required })
    }

    /// Experience needed to reach `level` from the level below it.
    pub fn xp_for_level(&self, level: i32) -> (r: i64)
        requires
            level <= MAX_LEVEL,
        ensures
            r == spec_xp_for_level(self@, level as int),
            r >= 0,
    {
        proof {
            use_type_invariant(self);
        }
        if level <= 1 {
            100
        } else {
            self.required[level as usize]
        }
    }

    /// Experience still needed for the next level; nothing at the highest level.
    pub fn xp_needed_after(&self, level: i32) -> (r: i64)
        ensures
            r == spec_xp_needed_after(self@, level as int),
    {
        if level < MAX_LEVEL {
            self.xp_for_level(level + 1)
        } else {
            0
        }
    }
}

pub open spec fn spec_xp_needed_after(required: Seq<i64>, level: int) -> int {
    if level < 100 {
        spec_xp_for_level(required, level + 1)
    } else {
        0
    }
}

/// Climbs levels while the experience covers the next one, below the highest level.
pub open spec fn spec_level_up(required: Seq<i64>, level: int, xp: int) -> (int, int)
    decreases 100 - level,
{
    if level < 100 && xp >= spec_xp_for_level(required, level + 1) {
        spec_level_up(required, level + 1, xp - spec_xp_for_level(required, level + 1))
    } else {
        (level, xp)
    }
}

/// What a change of experience does to a character.
#[derive(Debug, Clone, Copy, PartialEq, Eq, Structural)]
pub struct ExperienceOutcome {
    pub new_level: i32,
    /// Experience carried into the new level.
    pub new_total: i64,
    pub level_changed: bool,
    /// Experience that the next level needs (0 at the highest level).
    pub xp_needed: i64,
}

/// Adding `amount` (which may be negative) to a character of `level` with `xp`.
/// Falling below zero costs one level (not below 1) and empties the experience;
/// otherwise every level that the experience covers is gained.
pub open spec fn spec_apply_experience(required: Seq<i64>, level: int, xp: int, amount: int) -> (
    int,
    int,
    bool,
) {
    let total = xp + amount;
    if total < 0 {
        if level > 1 {
            (level - 1, 0, true)
        } else {
            (level, 0, false)
        }
    } else {
        let (l, x) = spec_level_up(required, level, total);
        (l, x, l != level)
    }
}

proof fn lemma_level_up_bounds(required: Seq<i64>, level: int, xp: int)
    requires
        XpTable::wf_seq(required),
        xp >= 0,
    ensures
        spec_level_up(required, level, xp).0 >= level,
        level <= 100 ==> spec_level_up(required, level, xp).0 <= 100,
        0 <= spec_level_up(required, level, xp).1 <= xp,
        spec_level_up(required, level, xp).0 < 100 ==> spec_level_up(required, level, xp).1
            < spec_xp_for_level(required, spec_level_up(required, level, xp).0 + 1),
    decreases 100 - level,
{
    if level < 100 && xp >= spec_xp_for_level(required, level + 1) {
        lemma_level_up_bounds(required, level + 1, xp - spec_xp_for_level(required, level + 1));
    }
}

/// Applies a gain (or, when negative, a loss) of experience to a character.
pub fn apply_experience(level: i32, experience: i64, amount: i64, table: &XpTable) -> (r:
    ExperienceOutcome)
    requires
        i64::MIN <= experience + amount <= i64::MAX,
    ensures
        (r.new_level as int, r.new_total as int, r.level_changed) == spec_apply_experience(
            table@,
            level as int,
            experience as int,
            amount as int,
        ),
        r.xp_needed == spec_xp_needed_after(table@, r.new_level as int),
        r.level_changed ==> r.new_level > level || r.new_level >= 1,
{
    proof {
        use_type_invariant(table);
    }
    let mut new_xp: i64 = experience + amount;
    let mut new_level: i32 = level;
    let mut level_changed = false;
    if new_xp < 0 {
        if new_level > 1 {
            new_level = new_level - 1;
            new_xp = 0;
            level_changed = true;
        } else {
            new_xp = 0;
        }
    } else {
        let ghost total = new_xp as int;
        while new_level < MAX_LEVEL
            invariant_except_break
                new_xp >= 0,
                spec_level_up(table@, new_level as int, new_xp as int) == spec_level_up(
                    table@,
                    level as int,
                    total,
                ),
                level_changed == (new_level != level),
                new_level >= level,
            ensures
                (new_level as int, new_xp as int) == spec_level_up(table@, level as int, total),
                level_changed == (new_level != level),
                new_level >= level,
            decreases MAX_LEVEL - new_level,
        {
            let xp_needed = table.xp_for_level(new_level + 1);
            if new_xp >= xp_needed {
                new_xp = new_xp - xp_needed;
                new_level = new_level + 1;
                level_changed = true;
            } else {
                break;
            }
        }
    }
    let xp_needed = table.xp_needed_after(new_level);
    ExperienceOutcome { new_level, new_total: new_xp, level_changed, xp_needed }
}

/// Below the highest level, experience that is not negative never reaches what the next
/// level needs once it has been applied; a character between levels 1 and 100 stays
/// there, loses at most one level, and never ends with negative experience.
pub proof fn lemma_experience_settles(required: Seq<i64>, level: int, xp: int, amount: int)
    requires
        XpTable::wf_seq(required),
        1 <= level <= 100,
    ensures
        ({
            let (l, x, _) = spec_apply_experience(required, level, xp, amount);
            &&& 1 <= l <= 100
            &&& l >= level - 1
            &&& x >= 0
            &&& l < 100 ==> x < spec_xp_for_level(required, l + 1)
        }),
{
    let total = xp + amount;
    if total >= 0 {
        lemma_level_up_bounds(required, level, total);
    } else if level > 1 {
        assert(required[level] > 0);
    }
}

/// Maximum health, mana and stamina at a level.
pub open spec fn spec_stats_for_level(level: int, class: CharacterClass) -> (int, int, int) {
    let gained = level - 1;
    let (hp, mana, stamina) = match class {
        CharacterClass::Krieger => (20int, 5int, 12int),
        CharacterClass::Ninja => (12int, 8int, 15int),
        CharacterClass::Sura => (15int, 12int, 10int),
        CharacterClass::Schamane => (8int, 18int, 8int),
    };
    (100 + gained * hp, 100 + gained * mana, 100 + gained * stamina)
}

/// What each level adds to maximum health, mana and stamina: a warrior gains most
/// health, a shaman most mana, a ninja most stamina.
pub open spec fn spec_gain_per_level(class: CharacterClass) -> (int, int, int) {
    match class {
        CharacterClass::Krieger => (20int, 5int, 12int),
        CharacterClass::Ninja => (12int, 8int, 15int),
        CharacterClass::Sura => (15int, 12int, 10int),
        CharacterClass::Schamane => (8int, 18int, 8int),
    }
}

/// Maximum health, mana and stamina at a level: 100 each at level 1, and a gain per level
/// that depends on the class.
pub fn calculate_stats_for_level(level: i32, class: &CharacterClass) -> (r: (i64, i64, i64))
    requires
        level > i32::MIN,
    ensures
        (r.0 as int, r.1 as int, r.2 as int) == spec_stats_for_level(level as int, *class),
        r.0 == 100 + (level - 1) * spec_gain_per_level(*class).0,
        r.1 == 100 + (level - 1) * spec_gain_per_level(*class).1,
        r.2 == 100 + (level - 1) * spec_gain_per_level(*class).2,
{
    let levels_gained: i64 = (level - 1) as i64;
    let (hp_per_level, mana_per_level, stamina_per_level): (i64, i64, i64) = match class {
        CharacterClass::Krieger => (20, 5, 12),
        CharacterClass::Ninja => (12, 8, 15),
        CharacterClass::Sura => (15, 12, 10),
        CharacterClass::Schamane => (8, 18, 8),
    };
    proof {
        assert(-4294967296 <= levels_gained <= 4294967296);
    }
    assert(-100000000000 <= levels_gained * hp_per_level <= 100000000000) by (nonlinear_arith)
        requires
            -4294967296 <= levels_gained <= 4294967296,
            0 <= hp_per_level <= 20,
    ;
    assert(-100000000000 <= levels_gained * mana_per_level <= 100000000000) by (nonlinear_arith)
        requires
            -4294967296 <= levels_gained <= 4294967296,
            0 <= mana_per_level <= 20,
    ;
    assert(-100000000000 <= levels_gained * stamina_per_level <= 100000000000) by (nonlinear_arith)
        requires
            -4294967296 <= levels_gained <= 4294967296,
            0 <= stamina_per_level <= 20,
    ;
    (
        100 + levels_gained * hp_per_level,
        100 + levels_gained * mana_per_level,
        100 + levels_gained * stamina_per_level,
    )
}

/// Each level adds the same amount to every stat, and that amount is positive, so stats
/// grow with the level.
pub proof fn lemma_stats_grow(class: CharacterClass, a: int, b: int)
    requires
        a <= b,
    ensures
        spec_stats_for_level(a, class).0 <= spec_stats_for_level(b, class).0,
        spec_stats_for_level(a, class).1 <= spec_stats_for_level(b, class).1,
        spec_stats_for_level(a, class).2 <= spec_stats_for_level(b, class).2,
        spec_stats_for_level(1, class) == (100int, 100int, 100int),
{
    let (hp, mana, stamina) = match class {
        CharacterClass::Krieger => (20int, 5int, 12int),
        CharacterClass::Ninja => (12int, 8int, 15int),
        CharacterClass::Sura => (15int, 12int, 10int),
        CharacterClass::Schamane => (8int, 18int, 8int),
    };
    assert((a - 1) * hp <= (b - 1) * hp) by (nonlinear_arith)
        requires a <= b, hp >= 0;
    assert((a - 1) * mana <= (b - 1) * mana) by (nonlinear_arith)
        requires a <= b, mana >= 0;
    assert((a - 1) * stamina <= (b - 1) * stamina) by (nonlinear_arith)
        requires a <= b, stamina >= 0;
}

/// Every level adds the class's gain per level to each of the three stats, whatever the
/// level, and a character starts at level 1 with 100 of each.
pub proof fn lemma_stats_per_level(class: CharacterClass, level: int)
    ensures
        spec_stats_for_level(level + 1, class).0 == spec_stats_for_level(level, class).0
            + spec_gain_per_level(class).0,
        spec_stats_for_level(level + 1, class).1 == spec_stats_for_level(level, class).1
            + spec_gain_per_level(class).1,
        spec_stats_for_level(level + 1, class).2 == spec_stats_for_level(level, class).2
            + spec_gain_per_level(class).2,
        spec_stats_for_level(1, class) == (100int, 100int, 100int),
{
    let (hp, mana, stamina) = spec_gain_per_level(class);
    assert(level * hp == (level - 1) * hp + hp) by (nonlinear_arith);
    assert(level * mana == (level - 1) * mana + mana) by (nonlinear_arith);
    assert(level * stamina == (level - 1) * stamina + stamina) by (nonlinear_arith);
}

} // verus!
