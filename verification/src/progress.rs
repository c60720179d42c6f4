//! Progression ledger: the player's roster of monsters in insertion order,
//! which one is active, how many are alive, inventory and buff bookkeeping,
//! outstanding quests, and the battle/boss counters. Every mutation is
//! synchronous: by the time a method returns, the ledger fully reflects it.

use crate::stats::{stats_ok, Element, Health, Level, MonsterStats, Strength, STAT_LIMIT};
use vstd::prelude::*;

verus! {

/// One roster entry: the opaque handle the surrounding game uses to identify
/// this monster, together with its stat bundle. The entry's position in the
/// roster is its ordinal, which defines the cycling order.
#[derive(Clone, Copy, Debug, PartialEq, Eq, Structural)]
pub struct MonsterRecord {
    pub id: u64,
    pub stats: MonsterStats,
}

/// Upper bound on the roster size.
pub const ROSTER_LIMIT: usize = 1_000_000;

/// Upper bound on every ledger counter (items, quests, wins); keeps all
/// counter arithmetic far from `u64` overflow.
pub const COUNT_LIMIT: u64 = 1_000_000_000_000;

/// Upper bound on the playthrough level: keeps the capture health clamp
/// (`current_level * 10`) within [`STAT_LIMIT`].
pub const LEVEL_LIMIT: u64 = 100_000;

/// Turns a strength buff lasts once used.
pub const BUFF_TURNS: u64 = 5;

/// Bosses to defeat to win the playthrough.
pub const BOSS_GOAL: u64 = 5;

/// Number of roster entries whose health is positive.
pub open spec fn count_living(s: Seq<MonsterRecord>) -> int
    decreases s.len(),
{
    if s.len() == 0 {
        0
    } else {
        count_living(s.drop_last()) + if s.last().stats.hp.health > 0 {
            1int
        } else {
            0int
        }
    }
}

pub proof fn lemma_count_living_bounds(s: Seq<MonsterRecord>)
    ensures
        0 <= count_living(s) <= s.len(),
    decreases s.len(),
{
    if s.len() > 0 {
        lemma_count_living_bounds(s.drop_last());
    }
}

pub proof fn lemma_count_living_push(s: Seq<MonsterRecord>, m: MonsterRecord)
    ensures
        count_living(s.push(m)) == count_living(s) + if m.stats.hp.health > 0 {
            1int
        } else {
            0int
        },
{
    assert(s.push(m).drop_last() =~= s);
}

pub proof fn lemma_count_living_update(s: Seq<MonsterRecord>, i: int, m: MonsterRecord)
    requires
        0 <= i < s.len(),
    ensures
        count_living(s.update(i, m)) == count_living(s) + (if m.stats.hp.health > 0 {
            1int
        } else {
            0int
        }) - (if s[i].stats.hp.health > 0 {
            1int
        } else {
            0int
        }),
    decreases s.len(),
{
    let t = s.update(i, m);
    if i == s.len() - 1 {
        assert(t.drop_last() =~= s.drop_last());
        assert(t.last() == m);
    } else {
        assert(t.drop_last() =~= s.drop_last().update(i, m));
        assert(t.last() == s.last());
        lemma_count_living_update(s.drop_last(), i, m);
    }
}

/// The player's progression state for one playthrough.
#[derive(Clone, Debug)]
pub struct GameProgress {
    /// Owned monsters, in insertion order; the index is the ordinal.
    pub roster: Vec<MonsterRecord>,
    /// Ordinal of the active (selected) monster. Exactly one monster is
    /// active at a time; 0 when the roster is still empty.
    pub selected: usize,
    /// How many roster monsters have positive health.
    pub num_living_monsters: u64,
    /// Playthrough level: drives enemy scaling, heal amounts, buff strength
    /// and the capture health clamp.
    pub current_level: u64,
    /// Bosses defeated so far.
    pub num_boss_defeated: u64,
    /// Ordinary (non-boss) battles won so far.
    pub num_battles_won: u64,
    /// Healing items held.
    pub heal_items: u64,
    /// Strength-buff items held.
    pub buff_items: u64,
    /// Remaining turns of the active strength buff; 0 when no buff is up.
    pub strength_buff_turns: u64,
    /// Outstanding quest targets: defeating a monster of a listed element
    /// completes that quest and grants a reward.
    pub quests: Vec<Element>,
}

impl GameProgress {
    /// Whether some roster entry carries this handle.
    pub open spec fn has_id(self, id: u64) -> bool {
        exists|i: int| 0 <= i < self.roster@.len() && self.roster@[i].id == id
    }

    /// Ledger invariant: every bundle well formed, handles distinct, the
    /// living counter exact, the selected ordinal in range, and every
    /// counter bounded.
    pub open spec fn wf(self) -> bool {
        &&& self.roster@.len() <= ROSTER_LIMIT
        &&& forall|i: int|
            0 <= i < self.roster@.len() ==> stats_ok(#[trigger] self.roster@[i].stats)
        &&& forall|i: int, j: int|
            0 <= i < j < self.roster@.len() ==> #[trigger] self.roster@[i].id
                != #[trigger] self.roster@[j].id
        &&& self.num_living_monsters == count_living(self.roster@)
        &&& 1 <= self.current_level <= LEVEL_LIMIT
        &&& if self.roster@.len() == 0 {
            self.selected == 0
        } else {
            self.selected < self.roster@.len()
        }
        &&& self.num_boss_defeated <= COUNT_LIMIT
        &&& self.num_battles_won <= COUNT_LIMIT
        &&& self.heal_items <= COUNT_LIMIT
        &&& self.buff_items <= COUNT_LIMIT
        &&& self.strength_buff_turns <= COUNT_LIMIT
        &&& self.quests@.len() <= COUNT_LIMIT
    }

    /// Fresh ledger for a new playthrough: empty roster, level 1, nothing
    /// counted and nothing held.
    pub fn new() -> (p: GameProgress)
        ensures
            p.wf(),
            p.roster@.len() == 0,
            p.selected == 0,
            p.num_living_monsters == 0,
            p.current_level == 1,
            p.num_boss_defeated == 0,
            p.num_battles_won == 0,
            p.heal_items == 0,
            p.buff_items == 0,
            p.strength_buff_turns == 0,
            p.quests@.len() == 0,
    {
        GameProgress {
            roster: Vec::new(),
            selected: 0,
            num_living_monsters: 0,
            current_level: 1,
            num_boss_defeated: 0,
            num_battles_won: 0,
            heal_items: 0,
            buff_items: 0,
            strength_buff_turns: 0,
            quests: Vec::new(),
        }
    }

    /// Tears the playthrough down: afterwards the ledger is exactly a fresh
    /// one.
    pub fn reset(&mut self)
        ensures
            final(self).wf(),
            final(self).roster@.len() == 0,
            final(self).selected == 0,
            final(self).num_living_monsters == 0,
            final(self).current_level == 1,
            final(self).num_boss_defeated == 0,
            final(self).num_battles_won == 0,
            final(self).heal_items == 0,
            final(self).buff_items == 0,
            final(self).strength_buff_turns == 0,
            final(self).quests@.len() == 0,
    {
        *self = GameProgress::new();
    }

    /// Whether the roster already holds a monster with this handle;
    /// callers use it to establish [`GameProgress::new_monster`]'s
    /// precondition.
    pub fn contains_id(&self, id: u64) -> (r: bool)
        ensures
            r == self.has_id(id),
    {
        let n = self.roster.len();
        let mut i: usize = 0;
        while i < n
            invariant
                n == self.roster@.len(),
                0 <= i <= n,
                forall|k: int| 0 <= k < i ==> self.roster@[k].id != id,
            decreases n - i,
        {
            if self.roster[i].id == id {
                return true;
            }
            i += 1;
        }
        false
    }

    /// Registers a monster with the ledger: appends it to the roster (its
    /// ordinal is the old roster size) and counts it among the living if its
    /// health is positive.
    pub fn new_monster(&mut self, id: u64, stats: MonsterStats)
        requires
            old(self).wf(),
            stats_ok(stats),
            !old(self).has_id(id),
            old(self).roster@.len() < ROSTER_LIMIT,
        ensures
            final(self).wf(),
            final(self).roster@ == old(self).roster@.push(MonsterRecord { id, stats }),
            final(self).num_living_monsters == old(self).num_living_monsters + if stats.hp.health
                > 0 {
                1int
            } else {
                0int
            },
            final(self).selected == old(self).selected,
            final(self).current_level == old(self).current_level,
            final(self).num_boss_defeated == old(self).num_boss_defeated,
            final(self).num_battles_won == old(self).num_battles_won,
            final(self).heal_items == old(self).heal_items,
            final(self).buff_items == old(self).buff_items,
            final(self).strength_buff_turns == old(self).strength_buff_turns,
            final(self).quests@ == old(self).quests@,
    {
        proof {
            lemma_count_living_bounds(self.roster@);
            lemma_count_living_push(self.roster@, MonsterRecord { id, stats });
        }
        self.roster.push(MonsterRecord { id, stats });
        if stats.hp.health > 0 {
            self.num_living_monsters += 1;
        }
    }

    /// Whether a bundle has room to level up `by` times without any stat
    /// leaving its machine-safe bound.
    pub open spec fn level_room(s: MonsterStats, by: u64) -> bool {
        &&& s.lvl.level + by <= STAT_LIMIT
        &&& s.hp.max_health + 10 * by <= STAT_LIMIT
        &&& s.stg.atk + 2 * by <= STAT_LIMIT
        &&& s.stg.crt + 5 * by <= STAT_LIMIT
        &&& s.def.def + by <= STAT_LIMIT
    }

    /// The bundle after leveling up `by` times: the whole bundle is replaced
    /// in one step so that it stays internally consistent, and health is
    /// fully restored to the new maximum.
    pub open spec fn leveled(s: MonsterStats, by: u64) -> MonsterStats {
        MonsterStats {
            typing: s.typing,
            lvl: Level { level: (s.lvl.level + by) as u64 },
            hp: Health {
                health: (s.hp.max_health + 10 * by) as i64,
                max_health: (s.hp.max_health + 10 * by) as u64,
            },
            stg: Strength {
                atk: (s.stg.atk + 2 * by) as i64,
                crt: (s.stg.crt + 5 * by) as i64,
                crt_dmg: s.stg.crt_dmg,
            },
            def: crate::stats::Defense {
                def: (s.def.def + by) as i64,
                crt_res: s.def.crt_res,
            },
        }
    }

    /// Levels the monster at `ordinal` up `by` times: `+1*by` level,
    /// `+10*by` max health with a full heal, `+2*by` attack, `+5*by` crit,
    /// `+1*by` defense. Always leaves the monster at full (positive) health,
    /// so a fallen monster leveled this way comes back to life.
    pub fn level_up(&mut self, ordinal: usize, by: u64)
        requires
            old(self).wf(),
            ordinal < old(self).roster@.len(),
            1 <= by <= 2,
            Self::level_room(old(self).roster@[ordinal as int].stats, by),
        ensures
            final(self).wf(),
            final(self).roster@ == old(self).roster@.update(ordinal as int, MonsterRecord {
                id: old(self).roster@[ordinal as int].id,
                stats: Self::leveled(old(self).roster@[ordinal as int].stats, by),
            }),
            final(self).roster@[ordinal as int].stats.hp.health == final(self).roster@[
                ordinal as int].stats.hp.max_health as i64,
            final(self).roster@[ordinal as int].stats.hp.health > 0,
            final(self).num_living_monsters == old(self).num_living_monsters + if old(
                self,
            ).roster@[ordinal as int].stats.hp.health > 0 {
                0int
            } else {
                1int
            },
            final(self).selected == old(self).selected,
            final(self).current_level == old(self).current_level,
            final(self).num_boss_defeated == old(self).num_boss_defeated,
            final(self).num_battles_won == old(self).num_battles_won,
            final(self).heal_items == old(self).heal_items,
            final(self).buff_items == old(self).buff_items,
            final(self).strength_buff_turns == old(self).strength_buff_turns,
            final(self).quests@ == old(self).quests@,
    {
        let rec = self.roster[ordinal];
        let was_living = rec.stats.hp.health > 0;
        let new_max: u64 = rec.stats.hp.max_health + 10 * by;
        let new_rec = MonsterRecord {
            id: rec.id,
            stats: MonsterStats {
                typing: rec.stats.typing,
                lvl: Level { level: rec.stats.lvl.level + by },
                hp: Health { health: new_max as i64, max_health: new_max },
                stg: Strength {
                    atk: rec.stats.stg.atk + 2 * (by as i64),
                    crt: rec.stats.stg.crt + 5 * (by as i64),
                    crt_dmg: rec.stats.stg.crt_dmg,
                },
                def: crate::stats::Defense {
                    def: rec.stats.def.def + (by as i64),
                    crt_res: rec.stats.def.crt_res,
                },
            },
        };
        proof {
            lemma_count_living_bounds(self.roster@);
            lemma_count_living_update(self.roster@, ordinal as int, new_rec);
        }
        self.roster.set(ordinal, new_rec);
        if !was_living {
            self.num_living_monsters += 1;
        }
        assert(self.roster@ =~= old(self).roster@.update(ordinal as int, MonsterRecord {
            id: old(self).roster@[ordinal as int].id,
            stats: Self::leveled(old(self).roster@[ordinal as int].stats, by),
        }));
    }
}

/// Whether the roster entry at `i` is alive.
pub open spec fn living_at(s: Seq<MonsterRecord>, i: int) -> bool {
    s[i].stats.hp.health > 0
}

/// Number of forward steps from ordinal `from` to ordinal `to`, wrapping at
/// the roster size: 0 for `to == from`, otherwise between 1 and `len - 1`.
pub open spec fn cyclic_dist(len: int, from: int, to: int) -> int {
    if to >= from {
        to - from
    } else {
        to - from + len
    }
}

/// The ordinal `d` forward steps after `from`, wrapping at `len`.
pub open spec fn at_dist(len: int, from: int, d: int) -> int {
    if from + d < len {
        from + d
    } else {
        from + d - len
    }
}

/// What a correct cyclic switch returns: the living roster monster other
/// than the current one that comes soonest after it in wrapping ordinal
/// order, or nothing when every other monster is down.
pub open spec fn cycle_choice_ok(s: Seq<MonsterRecord>, current: int, r: Option<usize>) -> bool {
    match r {
        Some(k) => {
            &&& 0 <= k < s.len()
            &&& k != current
            &&& living_at(s, k as int)
            &&& forall|j: int|
                0 <= j < s.len() && j != current && #[trigger] living_at(s, j) ==> cyclic_dist(
                    s.len() as int,
                    current,
                    k as int,
                ) <= cyclic_dist(s.len() as int, current, j)
        },
        None => forall|j: int| 0 <= j < s.len() && j != current ==> !(#[trigger] living_at(s, j)),
    }
}

impl GameProgress {
    /// Finds the next living monster after `current` in wrapping ordinal
    /// order, skipping fallen monsters and `current` itself; `None` when the
    /// whole roster has been searched without a living candidate.
    pub fn next_monster_cyclic(&self, current: usize) -> (r: Option<usize>)
        requires
            self.wf(),
            current < self.roster@.len(),
        ensures
            cycle_choice_ok(self.roster@, current as int, r),
    {
        let n = self.roster.len();
        let mut d: usize = 1;
        while d < n
            invariant
                n == self.roster@.len(),
                n <= ROSTER_LIMIT,
                current < n,
                1 <= d <= n,
                forall|e: int|
                    1 <= e < d ==> !living_at(self.roster@, #[trigger] at_dist(n as int,
                        current as int, e)),
            decreases n - d,
        {
            let k = if current + d < n {
                current + d
            } else {
                current + d - n
            };
            assert(k == at_dist(n as int, current as int, d as int));
            if self.roster[k].stats.hp.health > 0 {
                assert forall|j: int|
                    0 <= j < n && j != current && #[trigger] living_at(self.roster@, j) implies
                    cyclic_dist(n as int, current as int, k as int) <= cyclic_dist(n as int,
                        current as int, j) by {
                    let e = cyclic_dist(n as int, current as int, j);
                    assert(at_dist(n as int, current as int, e) == j);
                    assert(1 <= e <= n - 1);
                    assert(cyclic_dist(n as int, current as int, k as int) == d);
                }
                return Some(k);
            }
            d += 1;
        }
        assert forall|j: int| 0 <= j < n && j != current implies !living_at(self.roster@, j) by {
            let e = cyclic_dist(n as int, current as int, j);
            assert(at_dist(n as int, current as int, e) == j);
            assert(1 <= e <= n - 1);
        }
        None
    }
}

/// The bundle after healing `amount`, clamped to max health. Health never
/// decreases under a nonnegative heal, so a living monster stays living; a
/// fallen one comes back exactly when the heal lifts it above zero.
pub open spec fn healed(s: MonsterStats, amount: int) -> MonsterStats {
    MonsterStats {
        typing: s.typing,
        lvl: s.lvl,
        hp: Health {
            health: if s.hp.health + amount > s.hp.max_health {
                s.hp.max_health as i64
            } else {
                (s.hp.health + amount) as i64
            },
            max_health: s.hp.max_health,
        },
        stg: s.stg,
        def: s.def,
    }
}

/// Quests remaining after removing every quest that targets `e`, in order.
pub open spec fn quests_without(s: Seq<Element>, e: Element) -> Seq<Element>
    decreases s.len(),
{
    if s.len() == 0 {
        Seq::empty()
    } else {
        let rest = quests_without(s.drop_last(), e);
        if s.last() == e {
            rest
        } else {
            rest.push(s.last())
        }
    }
}

/// Number of quests that target `e`.
pub open spec fn matching_quests(s: Seq<Element>, e: Element) -> int
    decreases s.len(),
{
    if s.len() == 0 {
        0
    } else {
        matching_quests(s.drop_last(), e) + if s.last() == e {
            1int
        } else {
            0int
        }
    }
}

/// Completed and remaining quests partition the quest list.
pub proof fn lemma_quest_partition(s: Seq<Element>, e: Element)
    ensures
        0 <= matching_quests(s, e) <= s.len(),
        quests_without(s, e).len() + matching_quests(s, e) == s.len(),
    decreases s.len(),
{
    if s.len() > 0 {
        lemma_quest_partition(s.drop_last(), e);
    }
}

impl GameProgress {
    /// Heals every roster monster — fallen ones included — by `amount`,
    /// clamped to each monster's max health, and counts every monster the
    /// heal brings back above zero health among the living again.
    pub fn heal_all(&mut self, amount: i64)
        requires
            old(self).wf(),
            0 <= amount <= 3 * LEVEL_LIMIT,
        ensures
            final(self).wf(),
            final(self).roster@.len() == old(self).roster@.len(),
            forall|i: int|
                0 <= i < old(self).roster@.len() ==> #[trigger] final(self).roster@[i]
                    == (MonsterRecord {
                    id: old(self).roster@[i].id,
                    stats: healed(old(self).roster@[i].stats, amount as int),
                }),
            final(self).num_living_monsters == count_living(final(self).roster@),
            final(self).num_living_monsters >= old(self).num_living_monsters,
            final(self).selected == old(self).selected,
            final(self).current_level == old(self).current_level,
            final(self).num_boss_defeated == old(self).num_boss_defeated,
            final(self).num_battles_won == old(self).num_battles_won,
            final(self).heal_items == old(self).heal_items,
            final(self).buff_items == old(self).buff_items,
            final(self).strength_buff_turns == old(self).strength_buff_turns,
            final(self).quests@ == old(self).quests@,
    {
        let n = self.roster.len();
        let mut i: usize = 0;
        while i < n
            invariant
                old(self).wf(),
                0 <= amount <= 3 * LEVEL_LIMIT,
                n == old(self).roster@.len(),
                self.roster@.len() == n,
                0 <= i <= n,
                forall|k: int|
                    0 <= k < i ==> #[trigger] self.roster@[k] == (MonsterRecord {
                        id: old(self).roster@[k].id,
                        stats: healed(old(self).roster@[k].stats, amount as int),
                    }),
                forall|k: int| i <= k < n ==> #[trigger] self.roster@[k] == old(self).roster@[k],
                self.num_living_monsters == count_living(self.roster@),
                self.num_living_monsters >= old(self).num_living_monsters,
                self.selected == old(self).selected,
                self.current_level == old(self).current_level,
                self.num_boss_defeated == old(self).num_boss_defeated,
                self.num_battles_won == old(self).num_battles_won,
                self.heal_items == old(self).heal_items,
                self.buff_items == old(self).buff_items,
                self.strength_buff_turns == old(self).strength_buff_turns,
                self.quests@ == old(self).quests@,
            decreases n - i,
        {
            let rec = self.roster[i];
            assert(stats_ok(rec.stats));
            let new_health: i64 = if rec.stats.hp.health + amount > rec.stats.hp.max_health as i64 {
                rec.stats.hp.max_health as i64
            } else {
                rec.stats.hp.health + amount
            };
            let new_rec = MonsterRecord {
                id: rec.id,
                stats: MonsterStats {
                    typing: rec.stats.typing,
                    lvl: rec.stats.lvl,
                    hp: Health { health: new_health, max_health: rec.stats.hp.max_health },
                    stg: rec.stats.stg,
                    def: rec.stats.def,
                },
            };
            proof {
                lemma_count_living_bounds(self.roster@);
                lemma_count_living_update(self.roster@, i as int, new_rec);
            }
            if rec.stats.hp.health <= 0 && new_health > 0 {
                self.num_living_monsters += 1;
            }
            self.roster.set(i, new_rec);
            i += 1;
        }
    }

    /// Completes every outstanding quest that targets the defeated element:
    /// those quests leave the list and each one grants a healing item.
    /// Returns how many quests were completed.
    pub fn get_quest_rewards(&mut self, element: Element) -> (rewarded: u64)
        requires
            old(self).wf(),
            old(self).heal_items + old(self).quests@.len() <= COUNT_LIMIT,
        ensures
            final(self).wf(),
            rewarded == matching_quests(old(self).quests@, element),
            final(self).quests@ == quests_without(old(self).quests@, element),
            final(self).heal_items == old(self).heal_items + rewarded,
            final(self).roster@ == old(self).roster@,
            final(self).selected == old(self).selected,
            final(self).num_living_monsters == old(self).num_living_monsters,
            final(self).current_level == old(self).current_level,
            final(self).num_boss_defeated == old(self).num_boss_defeated,
            final(self).num_battles_won == old(self).num_battles_won,
            final(self).buff_items == old(self).buff_items,
            final(self).strength_buff_turns == old(self).strength_buff_turns,
    {
        let n = self.quests.len();
        let mut kept: Vec<Element> = Vec::new();
        let mut matched: u64 = 0;
        let mut i: usize = 0;
        proof {
            assert(self.quests@.take(0) =~= Seq::<Element>::empty());
        }
        while i < n
            invariant
                n == self.quests@.len(),
                n <= COUNT_LIMIT,
                0 <= i <= n,
                kept@ == quests_without(self.quests@.take(i as int), element),
                matched == matching_quests(self.quests@.take(i as int), element),
            decreases n - i,
        {
            proof {
                lemma_quest_partition(self.quests@.take(i as int), element);
                assert(self.quests@.take(i + 1).drop_last() =~= self.quests@.take(i as int));
                assert(self.quests@.take(i + 1).last() == self.quests@[i as int]);
            }
            let q = self.quests[i];
            if q == element {
                matched += 1;
            } else {
                kept.push(q);
            }
            i += 1;
        }
        proof {
            assert(self.quests@.take(n as int) =~= self.quests@);
            lemma_quest_partition(self.quests@, element);
        }
        self.quests = kept;
        self.heal_items += matched;
        matched
    }

    /// Records a new outstanding quest targeting `element`.
    pub fn add_quest(&mut self, element: Element)
        requires
            old(self).wf(),
            old(self).quests@.len() < COUNT_LIMIT,
        ensures
            final(self).wf(),
            final(self).quests@ == old(self).quests@.push(element),
            *final(self) == (GameProgress { quests: final(self).quests, ..*old(self) }),
    {
        self.quests.push(element);
    }

    /// Records a won ordinary battle.
    pub fn win_battle(&mut self)
        requires
            old(self).wf(),
            old(self).num_battles_won < COUNT_LIMIT,
        ensures
            final(self).wf(),
            final(self).num_battles_won == old(self).num_battles_won + 1,
            *final(self) == (GameProgress { num_battles_won: final(self).num_battles_won, ..*old(
                self,
            ) }),
    {
        self.num_battles_won += 1;
    }

    /// Records a defeated boss.
    pub fn win_boss(&mut self)
        requires
            old(self).wf(),
            old(self).num_boss_defeated < COUNT_LIMIT,
        ensures
            final(self).wf(),
            final(self).num_boss_defeated == old(self).num_boss_defeated + 1,
            *final(self) == (GameProgress { num_boss_defeated: final(self).num_boss_defeated,
                ..*old(self) }),
    {
        self.num_boss_defeated += 1;
    }

    /// Consumes one charge of the active strength buff, if one is up, and
    /// returns the extra attack it grants this turn: the playthrough level,
    /// or 0 with nothing consumed when no buff is active.
    pub fn consume_buff_charge(&mut self) -> (bonus: u64)
        requires
            old(self).wf(),
        ensures
            final(self).wf(),
            old(self).strength_buff_turns > 0 ==> {
                &&& bonus == old(self).current_level
                &&& final(self).strength_buff_turns == old(self).strength_buff_turns - 1
            },
            old(self).strength_buff_turns == 0 ==> {
                &&& bonus == 0
                &&& final(self).strength_buff_turns == 0
            },
            *final(self) == (GameProgress { strength_buff_turns: final(self).strength_buff_turns,
                ..*old(self) }),
    {
        if self.strength_buff_turns > 0 {
            self.strength_buff_turns -= 1;
            self.current_level
        } else {
            0
        }
    }

    /// Adds found items to the inventory.
    pub fn grant_items(&mut self, heal: u64, buff: u64)
        requires
            old(self).wf(),
            old(self).heal_items + heal <= COUNT_LIMIT,
            old(self).buff_items + buff <= COUNT_LIMIT,
        ensures
            final(self).wf(),
            final(self).heal_items == old(self).heal_items + heal,
            final(self).buff_items == old(self).buff_items + buff,
            *final(self) == (GameProgress {
                heal_items: final(self).heal_items,
                buff_items: final(self).buff_items,
                ..*old(self)
            }),
    {
        self.heal_items += heal;
        self.buff_items += buff;
    }

    /// Raises the playthrough level by one: enemies scale up, heals and the
    /// strength buff grow stronger.
    pub fn advance_level(&mut self)
        requires
            old(self).wf(),
            old(self).current_level < LEVEL_LIMIT,
        ensures
            final(self).wf(),
            final(self).current_level == old(self).current_level + 1,
            *final(self) == (GameProgress { current_level: final(self).current_level, ..*old(
                self,
            ) }),
    {
        self.current_level += 1;
    }

    /// Whether the playthrough is won: exactly the boss goal reached.
    pub fn game_won(&self) -> (r: bool)
        ensures
            r == (self.num_boss_defeated == BOSS_GOAL),
    {
        self.num_boss_defeated == BOSS_GOAL
    }
}

/// The roster after every living monster leveled up `by` times: fallen
/// monsters are left exactly as they are.
pub open spec fn leveled_roster(s: Seq<MonsterRecord>, by: u64) -> Seq<MonsterRecord> {
    Seq::new(
        s.len(),
        |i: int|
            if living_at(s, i) {
                MonsterRecord { id: s[i].id, stats: GameProgress::leveled(s[i].stats, by) }
            } else {
                s[i]
            },
    )
}

impl GameProgress {
    /// Subtracts resolved damage from the health of the living monster at
    /// `ordinal`; the monster leaves the living count exactly when the blow
    /// takes its health to zero or below.
    pub fn apply_damage(&mut self, ordinal: usize, dmg: i64)
        requires
            old(self).wf(),
            ordinal < old(self).roster@.len(),
            old(self).roster@[ordinal as int].stats.hp.health > 0,
            0 <= dmg <= crate::turn::MAX_DAMAGE,
        ensures
            final(self).wf(),
            final(self).roster@ == old(self).roster@.update(ordinal as int, MonsterRecord {
                id: old(self).roster@[ordinal as int].id,
                stats: MonsterStats {
                    hp: Health {
                        health: (old(self).roster@[ordinal as int].stats.hp.health - dmg) as i64,
                        ..old(self).roster@[ordinal as int].stats.hp
                    },
                    ..old(self).roster@[ordinal as int].stats
                },
            }),
            final(self).num_living_monsters == old(self).num_living_monsters - (if old(
                self,
            ).roster@[ordinal as int].stats.hp.health - dmg <= 0 {
                1int
            } else {
                0int
            }),
            final(self).selected == old(self).selected,
            final(self).current_level == old(self).current_level,
            final(self).num_boss_defeated == old(self).num_boss_defeated,
            final(self).num_battles_won == old(self).num_battles_won,
            final(self).heal_items == old(self).heal_items,
            final(self).buff_items == old(self).buff_items,
            final(self).strength_buff_turns == old(self).strength_buff_turns,
            final(self).quests@ == old(self).quests@,
    {
        let rec = self.roster[ordinal];
        let new_rec = MonsterRecord {
            id: rec.id,
            stats: MonsterStats {
                typing: rec.stats.typing,
                lvl: rec.stats.lvl,
                hp: Health {
                    health: rec.stats.hp.health - dmg,
                    max_health: rec.stats.hp.max_health,
                },
                stg: rec.stats.stg,
                def: rec.stats.def,
            },
        };
        proof {
            lemma_count_living_bounds(self.roster@);
            lemma_count_living_update(self.roster@, ordinal as int, new_rec);
            lemma_count_living_bounds(self.roster@.update(ordinal as int, new_rec));
        }
        if new_rec.stats.hp.health <= 0 {
            self.num_living_monsters -= 1;
        }
        self.roster.set(ordinal, new_rec);
    }

    /// Levels every living roster monster up `by` times; fallen monsters are
    /// skipped and the living count is unchanged.
    pub fn level_up_living(&mut self, by: u64)
        requires
            old(self).wf(),
            1 <= by <= 2,
            forall|i: int|
                0 <= i < old(self).roster@.len() && living_at(old(self).roster@, i)
                    ==> Self::level_room(#[trigger] old(self).roster@[i].stats, by),
        ensures
            final(self).wf(),
            final(self).roster@ == leveled_roster(old(self).roster@, by),
            final(self).num_living_monsters == old(self).num_living_monsters,
            final(self).selected == old(self).selected,
            final(self).current_level == old(self).current_level,
            final(self).num_boss_defeated == old(self).num_boss_defeated,
            final(self).num_battles_won == old(self).num_battles_won,
            final(self).heal_items == old(self).heal_items,
            final(self).buff_items == old(self).buff_items,
            final(self).strength_buff_turns == old(self).strength_buff_turns,
            final(self).quests@ == old(self).quests@,
    {
        let n = self.roster.len();
        let mut i: usize = 0;
        while i < n
            invariant
                old(self).wf(),
                1 <= by <= 2,
                forall|k: int|
                    0 <= k < n && living_at(old(self).roster@, k) ==> Self::level_room(
                        #[trigger] old(self).roster@[k].stats, by),
                n == old(self).roster@.len(),
                self.wf(),
                self.roster@.len() == n,
                0 <= i <= n,
                forall|k: int|
                    0 <= k < i ==> #[trigger] self.roster@[k] == leveled_roster(old(self).roster@,
                        by)[k],
                forall|k: int| i <= k < n ==> #[trigger] self.roster@[k] == old(self).roster@[k],
                self.num_living_monsters == old(self).num_living_monsters,
                self.selected == old(self).selected,
                self.current_level == old(self).current_level,
                self.num_boss_defeated == old(self).num_boss_defeated,
                self.num_battles_won == old(self).num_battles_won,
                self.heal_items == old(self).heal_items,
                self.buff_items == old(self).buff_items,
                self.strength_buff_turns == old(self).strength_buff_turns,
                self.quests@ == old(self).quests@,
            decreases n - i,
        {
            if self.roster[i].stats.hp.health > 0 {
                self.level_up(i, by);
            }
            i += 1;
        }
        assert(self.roster@ =~= leveled_roster(old(self).roster@, by));
    }
}

/// Cycling when the current monster is the only living one in the roster
/// finds nothing: the wrapping search visits every other ordinal exactly
/// once and returns, rather than looping forever.
pub proof fn lemma_cycle_single_living_finds_none(
    s: Seq<MonsterRecord>,
    current: int,
    r: Option<usize>,
)
    requires
        0 <= current < s.len(),
        forall|j: int| 0 <= j < s.len() && j != current ==> !(#[trigger] living_at(s, j)),
        cycle_choice_ok(s, current, r),
    ensures
        r is None,
{
}

/// Cycling from a fallen monster at ordinal `k` whose immediate successor
/// `k + 1` is alive switches exactly to `k + 1`.
pub proof fn lemma_cycle_picks_next_ordinal(s: Seq<MonsterRecord>, k: usize, r: Option<usize>)
    requires
        k + 1 < s.len(),
        living_at(s, k + 1),
        cycle_choice_ok(s, k as int, r),
    ensures
        r == Some((k + 1) as usize),
{
    assert(cyclic_dist(s.len() as int, k as int, k + 1) == 1);
    if let Some(m) = r {
        assert(cyclic_dist(s.len() as int, k as int, m as int) <= 1);
        assert(cyclic_dist(s.len() as int, k as int, m as int) >= 1);
    }
}

} // verus!
