//! What happens to players in the world: experience, and saving their positions.

use vstd::prelude::*;
use crate::class::CharacterClass;
use crate::leveling::{
    ExperienceOutcome, XpTable, apply_experience, calculate_stats_for_level, spec_apply_experience,
    spec_stats_for_level, spec_xp_needed_after,
};
use crate::protocol::ServerMessage;

verus! {

/// The messages that a change of experience sends.
pub struct ExperienceReport {
    pub outcome: ExperienceOutcome,
    /// Always sent: the change, the new total and what the next level needs.
    pub gained: ServerMessage,
    /// Sent when the level changed: the new level and its stats.
    pub level_up: Option<ServerMessage>,
}

/// Applies a change of experience to a player of `class` and says what to tell the player.
pub fn gain_experience(
    level: i32,
    experience: i64,
    class: CharacterClass,
    amount: i64,
    table: &XpTable,
) -> (r: ExperienceReport)
    requires
        i64::MIN <= experience + amount <= i64::MAX,
    ensures
        (r.outcome.new_level as int, r.outcome.new_total as int, r.outcome.level_changed)
            == spec_apply_experience(table@, level as int, experience as int, amount as int),
        r.outcome.xp_needed == spec_xp_needed_after(table@, r.outcome.new_level as int),
        r.gained == (ServerMessage::ExperienceGained {
            amount,
            new_total: r.outcome.new_total,
            xp_needed: r.outcome.xp_needed,
        }),
        r.level_up is Some <==> r.outcome.level_changed,
        r.level_up matches Some(m) ==> {
            let stats = spec_stats_for_level(r.outcome.new_level as int, class);
            m == (ServerMessage::LevelUp {
                new_level: r.outcome.new_level,
                new_max_health: stats.0 as i64,
                new_max_mana: stats.1 as i64,
                new_max_stamina: stats.2 as i64,
            })
        },
{
    let outcome = apply_experience(level, experience, amount, table);
    let gained = ServerMessage::ExperienceGained {
        amount,
        new_total: outcome.new_total,
        xp_needed: outcome.xp_needed,
    };
    let level_up = if outcome.level_changed {
        let (new_max_health, new_max_mana, new_max_stamina) = calculate_stats_for_level(
            outcome.new_level,
            &class,
        );
        Some(
            ServerMessage::LevelUp {
                new_level: outcome.new_level,
                new_max_health,
                new_max_mana,
                new_max_stamina,
            },
        )
    } else {
        None
    };
    ExperienceReport { outcome, gained, level_up }
}

/// Whether a player's position has to be written back, and when it last was
/// (milliseconds on a clock that does not go back).
#[derive(Debug, Clone, Copy, PartialEq, Eq, Structural)]
pub struct SaveState {
    pub character_id: i64,
    /// The position changed since the last save.
    pub dirty: bool,
    pub last_save: u64,
}

/// Time passed since `last`, or none if `last` lies ahead.
pub open spec fn spec_elapsed(now: u64, last: u64) -> int {
    if now >= last {
        now - last
    } else {
        0
    }
}

/// A player is due for saving when it moved and `interval` has passed since its last save.
pub open spec fn spec_save_due(s: SaveState, now: u64, interval: u64) -> bool {
    s.dirty && spec_elapsed(now, s.last_save) >= interval
}

/// The state of a player once it has been saved at `now`.
pub open spec fn spec_saved(s: SaveState, now: u64) -> SaveState {
    SaveState { character_id: s.character_id, dirty: false, last_save: now }
}

impl SaveState {
    /// A player that just entered the world at `now`, with nothing to save yet.
    pub fn new(character_id: i64, now: u64) -> (r: SaveState)
        ensures
            r == (SaveState { character_id, dirty: false, last_save: now }),
    {
        SaveState { character_id, dirty: false, last_save: now }
    }

    /// Records that the position changed.
    pub fn mark_moved(&mut self)
        ensures
            *final(self) == (SaveState { dirty: true, ..*old(self) }),
    {
        self.dirty = true;
    }

    pub fn is_due(&self, now: u64, interval: u64) -> (r: bool)
        ensures
            r == spec_save_due(*self, now, interval),
    {
        let elapsed: u64 = if now >= self.last_save {
            now - self.last_save
        } else {
            0
        };
        self.dirty && elapsed >= interval
    }
}

/// Picks the players that are due for saving, in order, and marks them saved at `now`.
/// Returns their positions in `states`.
pub fn plan_auto_save(states: &mut Vec<SaveState>, now: u64, interval: u64) -> (r: Vec<usize>)
    ensures
        final(states)@.len() == old(states)@.len(),
        forall|i: int|
            0 <= i < old(states)@.len() ==> #[trigger] final(states)@[i] == if spec_save_due(
                old(states)@[i],
                now,
                interval,
            ) {
                spec_saved(old(states)@[i], now)
            } else {
                old(states)@[i]
            },
        forall|j: int| 0 <= j < r@.len() ==> (r@[j] as int) < old(states)@.len(),
        forall|j: int, k: int| 0 <= j < k < r@.len() ==> r@[j] < r@[k],
        forall|i: int|
            0 <= i < old(states)@.len() ==> (spec_save_due(old(states)@[i], now, interval)
                <==> r@.contains(i as usize)),
{
    let ghost orig = states@;
    let mut due: Vec<usize> = Vec::new();
    let mut i: usize = 0;
    while i < states.len()
        invariant
            states@.len() == orig.len(),
            i <= orig.len(),
            forall|k: int|
                0 <= k < i ==> #[trigger] states@[k] == if spec_save_due(orig[k], now, interval) {
                    spec_saved(orig[k], now)
                } else {
                    orig[k]
                },
            forall|k: int| i <= k < orig.len() ==> #[trigger] states@[k] == orig[k],
            forall|j: int| 0 <= j < due@.len() ==> (due@[j] as int) < i,
            forall|j: int, k: int| 0 <= j < k < due@.len() ==> due@[j] < due@[k],
            forall|k: int| 0 <= k < i ==> (spec_save_due(orig[k], now, interval) <==> due@.contains(
                k as usize,
            )),
        decreases orig.len() - i,
    {
        let state = states[i];
        if state.is_due(now, interval) {
            let ghost before = due@;
            states.set(i, SaveState { character_id: state.character_id, dirty: false, last_save: now });
            due.push(i);
            proof {
                assert forall|k: int| 0 <= k <= i implies (spec_save_due(orig[k], now, interval)
                    <==> due@.contains(k as usize)) by {
                    if k < i {
                        if before.contains(k as usize) {
                            let j = choose|j: int| 0 <= j < before.len() && before[j] == k as usize;
                            assert(due@[j] == k as usize);
                        }
                        if due@.contains(k as usize) {
                            let j = choose|j: int| 0 <= j < due@.len() && due@[j] == k as usize;
                            if j < before.len() {
                                assert(before[j] == k as usize);
                            }
                        }
                    } else {
                        assert(due@[before.len() as int] == i);
                    }
                }
            }
        } else {
            proof {
                assert forall|k: int| 0 <= k <= i implies (spec_save_due(orig[k], now, interval)
                    <==> due@.contains(k as usize)) by {
                    if k == i && due@.contains(k as usize) {
                        let j = choose|j: int| 0 <= j < due@.len() && due@[j] == k as usize;
                    }
                }
            }
        }
        i = i + 1;
    }
    due
}

/// Position of the first player of a character.
fn find_character(states: &Vec<SaveState>, id: i64) -> (r: Option<usize>)
    ensures
        r matches Some(i) ==> i < states@.len() && states@[i as int].character_id == id && forall|
            k: int,
        | 0 <= k < i ==> states@[k].character_id != id,
        r is None ==> forall|k: int| 0 <= k < states@.len() ==> states@[k].character_id != id,
{
    let mut i: usize = 0;
    while i < states.len()
        invariant
            i <= states@.len(),
            forall|k: int| 0 <= k < i ==> states@[k].character_id != id,
        decreases states@.len() - i,
    {
        if states[i].character_id == id {
            return Some(i);
        }
        i = i + 1;
    }
    None
}

/// After a failed save, marks the players of the given characters as moved again, so that
/// the next save retries them. For each id, the first player with that character is marked.
pub fn restore_unsaved(states: &mut Vec<SaveState>, failed: &Vec<i64>)
    ensures
        final(states)@.len() == old(states)@.len(),
        forall|i: int|
            0 <= i < old(states)@.len() ==> {
                &&& #[trigger] final(states)@[i].character_id == old(states)@[i].character_id
                &&& final(states)@[i].last_save == old(states)@[i].last_save
                &&& final(states)@[i].dirty == (old(states)@[i].dirty || (failed@.contains(
                    old(states)@[i].character_id,
                ) && forall|k: int|
                    0 <= k < i ==> old(states)@[k].character_id != old(states)@[i].character_id))
            },
{
    let ghost orig = states@;
    let mut f: usize = 0;
    while f < failed.len()
        invariant
            states@.len() == orig.len(),
            f <= failed@.len(),
            forall|i: int|
                0 <= i < orig.len() ==> {
                    &&& #[trigger] states@[i].character_id == orig[i].character_id
                    &&& states@[i].last_save == orig[i].last_save
                    &&& states@[i].dirty == (orig[i].dirty || (failed@.take(f as int).contains(
                        orig[i].character_id,
                    ) && forall|k: int| 0 <= k < i ==> orig[k].character_id != orig[i].character_id))
                },
        decreases failed@.len() - f,
    {
        let id = failed[f];
        let ghost before = states@;
        let ghost fold = f as int;
        let found = find_character(states, id);
        if let Some(i) = found {
            let s = states[i];
            states.set(i, SaveState { character_id: s.character_id, dirty: true, last_save: s.last_save });
        }
        f = f + 1;
        proof {
            assert(failed@.take(f as int) =~= failed@.take(fold).push(id));
            assert forall|j: int| 0 <= j < orig.len() implies {
                &&& #[trigger] states@[j].character_id == orig[j].character_id
                &&& states@[j].last_save == orig[j].last_save
                &&& states@[j].dirty == (orig[j].dirty || (failed@.take(f as int).contains(
                    orig[j].character_id,
                ) && forall|k: int| 0 <= k < j ==> orig[k].character_id != orig[j].character_id))
            } by {
                let x = orig[j].character_id;
                let first = forall|k: int| 0 <= k < j ==> orig[k].character_id != x;
                assert(before[j].character_id == x);
                assert(before[j].dirty == (orig[j].dirty || (failed@.take(fold).contains(x)
                    && first)));
                let is_found = match found {
                    Some(i) => i as int == j,
                    None => false,
                };
                if is_found {
                    assert(states@[j].dirty);
                    assert(x == id);
                    assert(failed@.take(f as int)[fold] == id);
                    assert forall|k: int| 0 <= k < j implies orig[k].character_id != x by {
                        assert(before[k].character_id == orig[k].character_id);
                    }
                } else {
                    assert(states@[j] == before[j]);
                    if x == id {
                        assert(failed@.take(f as int)[fold] == id);
                        if first {
                            match found {
                                Some(i) => {
                                    if (i as int) < j {
                                        assert(before[i as int].character_id == orig[i as int].character_id);
                                    }
                                },
                                None => {},
                            }
                        }
                    } else {
                        if failed@.take(f as int).contains(x) {
                            let m = choose|m: int|
                                0 <= m < f as int && #[trigger] failed@.take(f as int)[m] == x;
                            assert(m < fold);
                            assert(failed@.take(fold)[m] == x);
                        }
                        if failed@.take(fold).contains(x) {
                            let m = choose|m: int|
                                0 <= m < fold && #[trigger] failed@.take(fold)[m] == x;
                            assert(failed@.take(f as int)[m] == x);
                        }
                    }
                }
            }
        }
    }
    assert(failed@.take(failed@.len() as int) =~= failed@);
    assert forall|i: int| 0 <= i < orig.len() implies {
        &&& #[trigger] states@[i].character_id == orig[i].character_id
        &&& states@[i].last_save == orig[i].last_save
        &&& states@[i].dirty == (orig[i].dirty || (failed@.contains(orig[i].character_id)
            && forall|k: int| 0 <= k < i ==> orig[k].character_id != orig[i].character_id))
    } by {
        assert(states@[i].character_id == orig[i].character_id);
    }
}

} // verus!
