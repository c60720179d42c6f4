//! Combatant stat model: the elemental typing and the stat bundle every
//! monster carries (level, health, strength, defense).

use vstd::prelude::*;

verus! {

/// Closed set of elemental types. The type effectiveness table is total over
/// this set, indexed by [`Element::index`].
#[derive(Clone, Copy, Debug, PartialEq, Eq, Structural)]
pub enum Element {
    Scav,
    Growth,
    Ember,
    Flood,
    Rad,
}

/// Number of elements; the effectiveness table is this many rows and columns.
pub const ELEMENT_COUNT: usize = 5;

impl Element {
    /// Row/column of this element in the effectiveness table.
    pub open spec fn idx(self) -> int {
        match self {
            Element::Scav => 0,
            Element::Growth => 1,
            Element::Ember => 2,
            Element::Flood => 3,
            Element::Rad => 4,
        }
    }

    /// Executable table index, equal to the spec-level [`Element::idx`].
    pub fn index(self) -> (i: usize)
        ensures
            i == self.idx(),
            i < ELEMENT_COUNT,
    {
        match self {
            Element::Scav => 0,
            Element::Growth => 1,
            Element::Ember => 2,
            Element::Flood => 3,
            Element::Rad => 4,
        }
    }
}

/// Experience level of a monster.
#[derive(Clone, Copy, Debug, PartialEq, Eq, Structural)]
pub struct Level {
    pub level: u64,
}

/// Current and maximum health. `health` is signed: it may go negative
/// transiently when damage exceeds the remaining health, before the
/// "defeated" transition is processed.
#[derive(Clone, Copy, Debug, PartialEq, Eq, Structural)]
pub struct Health {
    pub health: i64,
    pub max_health: u64,
}

/// Offensive stats: attack, critical-hit rating and the critical damage
/// multiplier.
#[derive(Clone, Copy, Debug, PartialEq, Eq, Structural)]
pub struct Strength {
    pub atk: i64,
    pub crt: i64,
    pub crt_dmg: i64,
}

/// Defensive stats: flat defense and critical-hit resistance.
#[derive(Clone, Copy, Debug, PartialEq, Eq, Structural)]
pub struct Defense {
    pub def: i64,
    pub crt_res: i64,
}

/// Full stat bundle of one monster.
#[derive(Clone, Copy, Debug, PartialEq, Eq, Structural)]
pub struct MonsterStats {
    pub typing: Element,
    pub lvl: Level,
    pub hp: Health,
    pub stg: Strength,
    pub def: Defense,
}

/// Upper bound on every individual stat. Keeps all damage arithmetic far away
/// from machine overflow: with stats at most this large, a critical elemental
/// hit is bounded by `2 * STAT_LIMIT * STAT_LIMIT * EFF_LIMIT`, well inside
/// `i64`.
pub const STAT_LIMIT: u64 = 1_000_000;

/// Lower bound on transiently negative health: one exchange subtracts at most
/// the maximum possible damage from a positive health value, and damage is
/// never applied to a monster already at or below zero health.
pub const HEALTH_FLOOR: i64 = -4_000_000_000_000_000_000;

/// Well-formed stat bundle: every stat is within machine-safe bounds and
/// current health never exceeds maximum health.
pub open spec fn stats_ok(s: MonsterStats) -> bool {
    &&& s.lvl.level <= STAT_LIMIT
    &&& s.hp.max_health <= STAT_LIMIT
    &&& HEALTH_FLOOR <= s.hp.health <= s.hp.max_health
    &&& 0 <= s.stg.atk <= STAT_LIMIT
    &&& 0 <= s.stg.crt <= STAT_LIMIT
    &&& 0 <= s.stg.crt_dmg <= STAT_LIMIT
    &&& 0 <= s.def.def <= STAT_LIMIT
    &&& 0 <= s.def.crt_res <= STAT_LIMIT
}

} // verus!
