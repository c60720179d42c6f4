//! Turn resolver: one simultaneous exchange of damage between the two
//! combatants. Both directions are computed independently from the same
//! snapshot of stats — there is no initiative order — and the resolver is
//! pure: the critical-hit rolls are parameters, so the same inputs always
//! give the same damages.

use crate::stats::{Defense, Element, Strength, STAT_LIMIT};
use crate::types::{TypeSystem, EFF_LIMIT, EFF_SCALE};
use vstd::prelude::*;

verus! {

/// What one side does during an exchange. `Special` is a reported
/// placeholder: it is resolved exactly like `Attack`.
#[derive(Clone, Copy, Debug, PartialEq, Eq, Structural)]
pub enum TurnAction {
    Attack,
    Defend,
    Elemental,
    Special,
}

/// Upper bound on the damage of one direction of a resolved exchange, for
/// buffed well-formed stats: `2 * STAT_LIMIT * STAT_LIMIT * EFF_LIMIT`.
pub const MAX_DAMAGE: i64 = 2_000_000_000_000_000_000;

/// Highest value of a critical-hit roll; rolls are uniform in `0..=CRIT_ROLL_MAX`.
pub const CRIT_ROLL_MAX: i64 = 100;

/// Offensive stats acceptable to the resolver: well-formed stats, except that
/// attack may carry a temporary strength buff of up to one extra `STAT_LIMIT`.
pub open spec fn strength_ok_buffed(s: Strength) -> bool {
    &&& 0 <= s.atk <= 2 * STAT_LIMIT
    &&& 0 <= s.crt <= STAT_LIMIT
    &&& 0 <= s.crt_dmg <= STAT_LIMIT
}

/// Defensive stats acceptable to the resolver.
pub open spec fn defense_ok(d: Defense) -> bool {
    &&& 0 <= d.def <= STAT_LIMIT
    &&& 0 <= d.crt_res <= STAT_LIMIT
}

/// Raw damage before multipliers: attack minus defense, floored at zero.
/// There is no minimum-1 damage floor.
pub open spec fn base_damage(atk: int, def: int) -> int {
    if atk <= def {
        0
    } else {
        atk - def
    }
}

/// Whether a critical hit lands: the check is only ever made when the
/// attacker's crit rating exceeds the defender's crit resistance, and the
/// chance is exactly that difference, against a uniform roll in
/// `0..=CRIT_ROLL_MAX`.
pub open spec fn crit_hits(crt: int, crt_res: int, roll: int) -> bool {
    crt > crt_res && roll <= crt - crt_res
}

/// Damage of one direction before any elemental multiplier: base damage,
/// multiplied by the attacker's crit multiplier when the crit roll lands.
pub open spec fn physical_damage(stg: Strength, defn: Defense, roll: int) -> int {
    let base = base_damage(stg.atk as int, defn.def as int);
    if crit_hits(stg.crt as int, defn.crt_res as int, roll) {
        base * stg.crt_dmg
    } else {
        base
    }
}

/// Full damage of one direction: physical damage, scaled by the elemental
/// match-up (truncated toward zero) when the acting side used an elemental
/// attack. `my_type` is the acting side's element, `other_type` the target's.
pub open spec fn directed_damage(
    stg: Strength,
    defn: Defense,
    action: TurnAction,
    my_type: Element,
    other_type: Element,
    roll: int,
    table: TypeSystem,
) -> int {
    let d = physical_damage(stg, defn, roll);
    if action is Elemental {
        d * table.eff(my_type, other_type) / (EFF_SCALE as int)
    } else {
        d
    }
}

/// Both damages of one exchange, `(to the enemy, to the player)`. If either
/// side defends, the whole exchange is cancelled: both damages are zero.
pub open spec fn turn_damages(
    player_stg: Strength,
    player_def: Defense,
    player_type: Element,
    player_action: TurnAction,
    enemy_stg: Strength,
    enemy_def: Defense,
    enemy_type: Element,
    enemy_action: TurnAction,
    player_roll: int,
    enemy_roll: int,
    table: TypeSystem,
) -> (int, int) {
    if player_action is Defend || enemy_action is Defend {
        (0, 0)
    } else {
        (
            directed_damage(player_stg, enemy_def, player_action, player_type, enemy_type,
                player_roll, table),
            directed_damage(enemy_stg, player_def, enemy_action, enemy_type, player_type,
                enemy_roll, table),
        )
    }
}

/// Damage in one direction is never negative and never above [`MAX_DAMAGE`]
/// for resolver-acceptable stats and a bounded table.
pub proof fn lemma_directed_damage_bounds(
    stg: Strength,
    defn: Defense,
    action: TurnAction,
    my_type: Element,
    other_type: Element,
    roll: int,
    table: TypeSystem,
)
    requires
        strength_ok_buffed(stg),
        defense_ok(defn),
        table.wf(),
    ensures
        0 <= directed_damage(stg, defn, action, my_type, other_type, roll, table) <= MAX_DAMAGE,
{
    let base = base_damage(stg.atk as int, defn.def as int);
    assert(0 <= base <= 2 * STAT_LIMIT);
    let phys = physical_damage(stg, defn, roll);
    assert(0 <= phys <= 2 * STAT_LIMIT * STAT_LIMIT) by (nonlinear_arith)
        requires
            0 <= base <= 2 * STAT_LIMIT,
            0 <= stg.crt_dmg <= STAT_LIMIT,
            phys == base || phys == base * stg.crt_dmg,
    ;
    let e = table.eff(my_type, other_type);
    assert(0 <= e <= EFF_LIMIT) by {
        assert(0 <= my_type.idx() < 5);
        assert(0 <= other_type.idx() < 5);
    }
    assert(0 <= phys * e / (EFF_SCALE as int) <= MAX_DAMAGE) by (nonlinear_arith)
        requires
            0 <= phys <= 2 * STAT_LIMIT * STAT_LIMIT,
            0 <= e <= EFF_LIMIT,
    ;
}

/// Resolves one direction of an exchange. The caller has already ruled out a
/// defend on either side; `crit_roll` is this direction's uniform roll.
pub fn resolve_direction(
    stg: &Strength,
    defn: &Defense,
    action: TurnAction,
    my_type: Element,
    other_type: Element,
    crit_roll: i64,
    table: &TypeSystem,
) -> (damage: i64)
    requires
        strength_ok_buffed(*stg),
        defense_ok(*defn),
        table.wf(),
    ensures
        damage == directed_damage(*stg, *defn, action, my_type, other_type, crit_roll as int,
            *table),
        0 <= damage <= MAX_DAMAGE,
{
    proof {
        lemma_directed_damage_bounds(*stg, *defn, action, my_type, other_type, crit_roll as int,
            *table);
    }
    let mut damage: i64 = if stg.atk <= defn.def {
        0
    } else {
        stg.atk - defn.def
    };
    if stg.crt > defn.crt_res {
        let crit_chance = stg.crt - defn.crt_res;
        if crit_roll <= crit_chance {
            assert(damage * stg.crt_dmg <= 2 * STAT_LIMIT * STAT_LIMIT) by (nonlinear_arith)
                requires
                    0 <= damage <= 2 * STAT_LIMIT,
                    0 <= stg.crt_dmg <= STAT_LIMIT,
            ;
            assert(damage * stg.crt_dmg >= 0) by (nonlinear_arith)
                requires
                    0 <= damage,
                    0 <= stg.crt_dmg,
            ;
            damage = damage * stg.crt_dmg;
        }
    }
    if matches!(action, TurnAction::Elemental) {
        let e = table.effectiveness(my_type, other_type);
        assert(damage * e <= 2 * STAT_LIMIT * STAT_LIMIT * EFF_LIMIT) by (nonlinear_arith)
            requires
                0 <= damage <= 2 * STAT_LIMIT * STAT_LIMIT,
                0 <= e <= EFF_LIMIT,
        ;
        assert(damage * e >= 0) by (nonlinear_arith)
            requires
                0 <= damage,
                0 <= e,
        ;
        damage = (damage * (e as i64)) / (EFF_SCALE as i64);
    }
    damage
}

/// Resolves one full exchange: `(damage to the enemy, damage to the player)`.
/// Pure in all its inputs; the two crit rolls are uniform draws in
/// `0..=CRIT_ROLL_MAX` supplied by the caller.
pub fn resolve_turn(
    player_stg: &Strength,
    player_def: &Defense,
    player_type: Element,
    player_action: TurnAction,
    enemy_stg: &Strength,
    enemy_def: &Defense,
    enemy_type: Element,
    enemy_action: TurnAction,
    player_crit_roll: i64,
    enemy_crit_roll: i64,
    table: &TypeSystem,
) -> (damages: (i64, i64))
    requires
        strength_ok_buffed(*player_stg),
        defense_ok(*player_def),
        strength_ok_buffed(*enemy_stg),
        defense_ok(*enemy_def),
        table.wf(),
    ensures
        (damages.0 as int, damages.1 as int) == turn_damages(*player_stg, *player_def,
            player_type, player_action, *enemy_stg, *enemy_def, enemy_type, enemy_action,
            player_crit_roll as int, enemy_crit_roll as int, *table),
        0 <= damages.0 <= MAX_DAMAGE,
        0 <= damages.1 <= MAX_DAMAGE,
{
    if matches!(player_action, TurnAction::Defend) || matches!(enemy_action, TurnAction::Defend) {
        return (0, 0);
    }
    let to_enemy = resolve_direction(player_stg, enemy_def, player_action, player_type,
        enemy_type, player_crit_roll, table);
    let to_player = resolve_direction(enemy_stg, player_def, enemy_action, enemy_type,
        player_type, enemy_crit_roll, table);
    (to_enemy, to_player)
}

/// An attack at or below the matching defense deals exactly zero damage in
/// that direction, whatever the action, rolls and table: there is no
/// minimum-damage floor, and neither the critical nor the elemental
/// multiplier can raise zero.
pub proof fn lemma_outmatched_attack_deals_zero(
    stg: Strength,
    defn: Defense,
    action: TurnAction,
    my_type: Element,
    other_type: Element,
    roll: int,
    table: TypeSystem,
)
    requires
        stg.atk <= defn.def,
    ensures
        directed_damage(stg, defn, action, my_type, other_type, roll, table) == 0,
{
    assert(base_damage(stg.atk as int, defn.def as int) == 0);
    assert(physical_damage(stg, defn, roll) == 0);
}

/// In a full exchange, a player attack at or below the enemy's defense
/// deals exactly zero damage to the enemy, whatever both sides do and roll.
pub proof fn lemma_outmatched_exchange_deals_zero(
    player_stg: Strength,
    player_def: Defense,
    player_type: Element,
    player_action: TurnAction,
    enemy_stg: Strength,
    enemy_def: Defense,
    enemy_type: Element,
    enemy_action: TurnAction,
    player_roll: int,
    enemy_roll: int,
    table: TypeSystem,
)
    requires
        player_stg.atk <= enemy_def.def,
    ensures
        turn_damages(player_stg, player_def, player_type, player_action, enemy_stg, enemy_def,
            enemy_type, enemy_action, player_roll, enemy_roll, table).0 == 0,
{
    lemma_outmatched_attack_deals_zero(player_stg, enemy_def, player_action, player_type,
        enemy_type, player_roll, table);
}

/// If either side defends, the whole exchange is cancelled: both resulting
/// damages are exactly zero, regardless of every stat.
pub proof fn lemma_defend_cancels_exchange(
    player_stg: Strength,
    player_def: Defense,
    player_type: Element,
    player_action: TurnAction,
    enemy_stg: Strength,
    enemy_def: Defense,
    enemy_type: Element,
    enemy_action: TurnAction,
    player_roll: int,
    enemy_roll: int,
    table: TypeSystem,
)
    requires
        player_action is Defend || enemy_action is Defend,
    ensures
        turn_damages(player_stg, player_def, player_type, player_action, enemy_stg, enemy_def,
            enemy_type, enemy_action, player_roll, enemy_roll, table) == (0int, 0int),
{
}

/// Elemental damage is exactly the truncated product of the physical damage
/// and the match-up multiplier; a neutral multiplier (x1.0) reproduces the
/// non-elemental damage exactly.
pub proof fn lemma_elemental_damage_exact(
    stg: Strength,
    defn: Defense,
    my_type: Element,
    other_type: Element,
    roll: int,
    table: TypeSystem,
)
    ensures
        directed_damage(stg, defn, TurnAction::Elemental, my_type, other_type, roll, table)
            == physical_damage(stg, defn, roll) * table.eff(my_type, other_type) / (
        EFF_SCALE as int),
        table.eff(my_type, other_type) == EFF_SCALE ==> directed_damage(stg, defn,
            TurnAction::Elemental, my_type, other_type, roll, table) == directed_damage(stg, defn,
            TurnAction::Attack, my_type, other_type, roll, table),
{
    let d = physical_damage(stg, defn, roll);
    assert(d * (EFF_SCALE as int) / (EFF_SCALE as int) == d) by (nonlinear_arith);
}

/// The critical multiplier can only ever apply when the attacker's crit
/// rating exceeds the defender's crit resistance; with the chance equal to
/// that difference, a roll of 0 always crits when the chance is positive,
/// and a roll of 100 never crits when the chance is below 100.
pub proof fn lemma_crit_window(crt: int, crt_res: int, roll: int)
    ensures
        crt <= crt_res ==> !crit_hits(crt, crt_res, roll),
        crt > crt_res && roll == 0 ==> crit_hits(crt, crt_res, roll),
        crt - crt_res < 100 && roll == 100 ==> !crit_hits(crt, crt_res, roll),
{
}

} // verus!
