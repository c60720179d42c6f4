//! Battle state machine: turn sequencing, monster defeat and switching,
//! capture on victory, leveling, and boss rewards.
//!
//! One player action is processed per call. [`step`] is fully deterministic:
//! the enemy's action and both critical-hit rolls are parameters, and its
//! contract pins the entire next state. [`handle_action`] is the entry point
//! the surrounding game uses: it draws the enemy action and the rolls and
//! hands them to [`step`], so everything it can produce is some [`step`]
//! result for in-range draws.

use crate::progress::{
    cycle_choice_ok, healed, leveled_roster, living_at, matching_quests, quests_without,
    GameProgress, MonsterRecord, BUFF_TURNS, COUNT_LIMIT, ROSTER_LIMIT,
};
use crate::rng::roll_between;
use crate::stats::{stats_ok, Health, MonsterStats, Strength};
use crate::turn::{resolve_turn, turn_damages, TurnAction, CRIT_ROLL_MAX};
use crate::types::TypeSystem;
use vstd::prelude::*;

verus! {

/// Where the machine stands. `Idle` is the rest state outside any battle;
/// a battle opens in `AwaitingAction`, passes through `Resolving` while a
/// turn is applied, and ends in `Concluded`, after which the surrounding
/// game transitions back to the overworld.
#[derive(Clone, Copy, Debug, PartialEq, Eq, Structural)]
pub enum BattleState {
    Idle,
    AwaitingAction,
    Resolving,
    Concluded,
}

/// The player's possible actions for one tick of the battle.
#[derive(Clone, Copy, Debug, PartialEq, Eq, Structural)]
pub enum Action {
    Attack,
    ElementalAttack,
    Defend,
    Abort,
    CycleMonster,
    UseHealItem,
    UseStrengthBuff,
}

/// What one processed action amounted to.
#[derive(Clone, Copy, Debug, PartialEq, Eq, Structural)]
pub enum BattleEvent {
    /// An exchange happened and both combatants still stand.
    Continue,
    /// The enemy fell and was captured; the battle is over.
    Victory,
    /// The player's monster fell and the next living one took its place.
    SwitchedMonster,
    /// The player's monster fell with no living replacement; the battle is
    /// over.
    Defeat,
    /// The player walked away: no capture, no leveling.
    Aborted,
    /// A voluntary switch to the next living monster.
    Cycled,
    /// A switch was requested but no other living monster exists.
    NoCycleTarget,
    /// A healing item restored the whole roster.
    Healed,
    /// A strength buff is now active.
    BuffApplied,
    /// An item action with an empty inventory slot: nothing happened.
    InsufficientInventory,
    /// The player defended; no exchange takes place.
    Defended,
}

/// The battle against one enemy. The player's side lives in the
/// [`GameProgress`] roster; this struct carries the opposing combatant.
#[derive(Clone, Copy, Debug, PartialEq, Eq, Structural)]
pub struct Battle {
    /// Machine state; actions are accepted only in `AwaitingAction`.
    pub state: BattleState,
    /// Opaque handle of the enemy monster; never a roster handle while the
    /// battle runs.
    pub enemy_id: u64,
    /// The enemy's live stat bundle; its health is the one mutated by
    /// exchanges.
    pub enemy: MonsterStats,
    /// Whether the enemy is a boss: doubles the victory leveling and spawns
    /// a quest NPC when it falls.
    pub enemy_boss: bool,
}

/// Everything one processed action changed or reported, for the surrounding
/// game to render and act on.
#[derive(Clone, Copy, Debug, PartialEq, Eq, Structural)]
pub struct BattleOutcome {
    pub event: BattleEvent,
    /// Damage dealt to the enemy this tick (0 outside exchanges).
    pub damage_to_enemy: i64,
    /// Damage dealt to the player's monster this tick (0 outside exchanges).
    pub damage_to_player: i64,
    /// The enemy's drawn action, reported for exchanges only.
    pub enemy_action: Option<TurnAction>,
    /// New selected ordinal when a switch or cycle happened.
    pub switched_to: Option<usize>,
    /// Whether the enemy was captured into the roster.
    pub captured: bool,
    /// How many level-ups each living roster monster received (0, 1 or 2).
    pub leveled_by: u64,
    /// Whether the defeated enemy was a boss.
    pub boss_defeated: bool,
    /// Whether the surrounding game should spawn a quest NPC.
    pub spawn_npc: bool,
    /// Next-outer-state signal: leave the battle screen when true.
    pub exit_battle: bool,
}

impl Battle {
    /// Opens a battle against the given enemy; the machine awaits the
    /// player's first action.
    pub fn new(enemy_id: u64, enemy: MonsterStats, enemy_boss: bool) -> (b: Battle)
        ensures
            b == (Battle { state: BattleState::AwaitingAction, enemy_id, enemy, enemy_boss }),
    {
        Battle { state: BattleState::AwaitingAction, enemy_id, enemy, enemy_boss }
    }
}

/// A battle fit to process an action: a well-formed ledger with a non-empty
/// roster, a well-formed living enemy, and an enemy handle that is not a
/// roster handle (a monster is never owned and opposing at once).
pub open spec fn battle_ok(b: Battle, p: GameProgress) -> bool {
    &&& p.wf()
    &&& p.roster@.len() > 0
    &&& stats_ok(b.enemy)
    &&& b.enemy.hp.health > 0
    &&& !p.has_id(b.enemy_id)
}

/// The captured bundle of a defeated enemy: its stats, with health and max
/// health both clamped to `level * 10` so boss-inflated health does not
/// enter the roster.
pub open spec fn captured_stats(s: MonsterStats, level: u64) -> MonsterStats {
    MonsterStats {
        typing: s.typing,
        lvl: s.lvl,
        hp: Health { health: (level * 10) as i64, max_health: (level * 10) as u64 },
        stg: s.stg,
        def: s.def,
    }
}

/// Headroom for the bookkeeping a victory this turn would do: room in the
/// roster for the capture, in the counters for the win, in the items for
/// quest rewards, and level-up room for every living monster and the
/// capture. These are machine-size limits, far above any reachable play.
pub open spec fn victory_room(p: GameProgress, b: Battle) -> bool {
    &&& p.roster@.len() < ROSTER_LIMIT
    &&& p.num_battles_won < COUNT_LIMIT
    &&& p.num_boss_defeated < COUNT_LIMIT
    &&& p.heal_items + p.quests@.len() <= COUNT_LIMIT
    &&& forall|i: int|
        0 <= i < p.roster@.len() && living_at(p.roster@, i) ==> GameProgress::level_room(
            #[trigger] p.roster@[i].stats,
            2,
        )
    &&& GameProgress::level_room(captured_stats(b.enemy, p.current_level), 2)
}

/// Extra attack granted by the active strength buff for one exchange: the
/// playthrough level while a buff charge is up, 0 otherwise.
pub open spec fn buff_bonus(p: GameProgress) -> u64 {
    if p.strength_buff_turns > 0 {
        p.current_level
    } else {
        0
    }
}

/// Offensive stats with the temporary buff applied for the exchange only.
pub open spec fn buffed(s: Strength, bonus: u64) -> Strength {
    Strength { atk: (s.atk + bonus) as i64, crt: s.crt, crt_dmg: s.crt_dmg }
}

/// The ledger's scalar bookkeeping an action left untouched.
pub open spec fn ledger_scalars_unchanged(pre: GameProgress, post: GameProgress) -> bool {
    &&& post.current_level == pre.current_level
    &&& post.num_boss_defeated == pre.num_boss_defeated
    &&& post.num_battles_won == pre.num_battles_won
    &&& post.heal_items == pre.heal_items
    &&& post.buff_items == pre.buff_items
    &&& post.strength_buff_turns == pre.strength_buff_turns
    &&& post.quests@ == pre.quests@
}

/// The battle's enemy side an action left untouched.
pub open spec fn enemy_unchanged(pre: Battle, post: Battle) -> bool {
    &&& post.enemy_id == pre.enemy_id
    &&& post.enemy == pre.enemy
    &&& post.enemy_boss == pre.enemy_boss
}

/// Outcome fields of a tick with no exchange: no damage, no reported enemy
/// action, no capture, no leveling, no boss reward.
pub open spec fn no_exchange_out(out: BattleOutcome) -> bool {
    &&& out.damage_to_enemy == 0
    &&& out.damage_to_player == 0
    &&& out.enemy_action is None
    &&& !out.captured
    &&& out.leveled_by == 0
    &&& !out.boss_defeated
    &&& !out.spawn_npc
}

/// The switch-or-end branch, applied to a roster (already reflecting any
/// damage) with the fallen monster at `sel`: switch to the soonest living
/// monster in wrapping order and stay in battle, or — with no living
/// monster left — reset the selection to ordinal 0, conclude, and report
/// defeat.
pub open spec fn switch_or_end_applied(
    mid_roster: Seq<MonsterRecord>,
    sel: int,
    post_p: GameProgress,
    post_b: Battle,
    out: BattleOutcome,
) -> bool {
    &&& cycle_choice_ok(mid_roster, sel, out.switched_to)
    &&& post_p.roster@ == mid_roster
    &&& match out.switched_to {
        Some(k) => {
            &&& post_p.selected == k
            &&& post_b.state is AwaitingAction
            &&& out.event is SwitchedMonster
            &&& !out.exit_battle
        },
        None => {
            &&& post_p.selected == 0
            &&& post_b.state is Concluded
            &&& out.event is Defeat
            &&& out.exit_battle
        },
    }
}

/// Victory bookkeeping, applied to the roster as it stands after the
/// exchange (`mid_roster`): the enemy joins the roster with clamped health,
/// the win and any matching quests are counted, every living monster —
/// the fresh capture included — levels up (twice for a boss), the selection
/// resets to ordinal 0, a boss loses its tag and triggers the NPC signal,
/// and the battle concludes.
pub open spec fn victory_applied(
    mid_roster: Seq<MonsterRecord>,
    pre_p: GameProgress,
    enemy: MonsterStats,
    enemy_id: u64,
    boss: bool,
    post_p: GameProgress,
    post_b: Battle,
    out: BattleOutcome,
) -> bool {
    let by: u64 = if boss {
        2
    } else {
        1
    };
    let cap = MonsterRecord { id: enemy_id, stats: captured_stats(enemy, pre_p.current_level) };
    &&& post_p.roster@ == leveled_roster(mid_roster.push(cap), by)
    &&& post_p.selected == 0
    &&& post_p.num_boss_defeated == pre_p.num_boss_defeated + if boss {
        1int
    } else {
        0int
    }
    &&& post_p.num_battles_won == pre_p.num_battles_won + if boss {
        0int
    } else {
        1int
    }
    &&& post_p.heal_items == pre_p.heal_items + matching_quests(pre_p.quests@, enemy.typing)
    &&& post_p.quests@ == quests_without(pre_p.quests@, enemy.typing)
    &&& post_p.buff_items == pre_p.buff_items
    &&& post_p.current_level == pre_p.current_level
    &&& post_b.state is Concluded
    &&& post_b.enemy_id == enemy_id
    &&& post_b.enemy_boss == false
    &&& out.event is Victory
    &&& out.captured
    &&& out.leveled_by == by
    &&& out.boss_defeated == boss
    &&& out.spawn_npc == boss
    &&& out.exit_battle
    &&& out.switched_to is None
}

/// One attack or elemental-attack tick, starting from a living selected
/// monster: the buff charge (if any) is consumed, the exchange is resolved
/// with the given enemy action and rolls, both damages land, and the
/// defeat checks run — enemy down first (victory and capture), then player
/// down (switch or end), else the battle continues.
pub open spec fn attack_applied(
    pre_p: GameProgress,
    pre_b: Battle,
    post_p: GameProgress,
    post_b: Battle,
    out: BattleOutcome,
    table: TypeSystem,
    elemental: bool,
    ea: TurnAction,
    rp: int,
    re: int,
) -> bool {
    let sel = pre_p.selected as int;
    let rec = pre_p.roster@[sel];
    let my_act = if elemental {
        TurnAction::Elemental
    } else {
        TurnAction::Attack
    };
    let dmg = turn_damages(buffed(rec.stats.stg, buff_bonus(pre_p)), rec.stats.def,
        rec.stats.typing, my_act, pre_b.enemy.stg, pre_b.enemy.def, pre_b.enemy.typing, ea, rp,
        re, table);
    let player_health = rec.stats.hp.health - dmg.1;
    let enemy_health = pre_b.enemy.hp.health - dmg.0;
    let mid_roster = pre_p.roster@.update(sel, MonsterRecord {
        id: rec.id,
        stats: MonsterStats {
            hp: Health { health: player_health as i64, ..rec.stats.hp },
            ..rec.stats
        },
    });
    &&& out.damage_to_enemy == dmg.0
    &&& out.damage_to_player == dmg.1
    &&& out.enemy_action == Some(ea)
    &&& post_p.strength_buff_turns == if pre_p.strength_buff_turns > 0 {
        (pre_p.strength_buff_turns - 1) as u64
    } else {
        0u64
    }
    &&& post_b.enemy_id == pre_b.enemy_id
    &&& post_b.enemy == (MonsterStats {
        hp: Health { health: enemy_health as i64, ..pre_b.enemy.hp },
        ..pre_b.enemy
    })
    &&& if enemy_health <= 0 {
        victory_applied(mid_roster, pre_p, pre_b.enemy, pre_b.enemy_id, pre_b.enemy_boss, post_p,
            post_b, out)
    } else {
        &&& post_b.enemy_boss == pre_b.enemy_boss
        &&& post_p.num_boss_defeated == pre_p.num_boss_defeated
        &&& post_p.num_battles_won == pre_p.num_battles_won
        &&& post_p.heal_items == pre_p.heal_items
        &&& post_p.buff_items == pre_p.buff_items
        &&& post_p.current_level == pre_p.current_level
        &&& post_p.quests@ == pre_p.quests@
        &&& !out.captured
        &&& out.leveled_by == 0
        &&& !out.boss_defeated
        &&& !out.spawn_npc
        &&& if player_health <= 0 {
            switch_or_end_applied(mid_roster, sel, post_p, post_b, out)
        } else {
            &&& post_p.roster@ == mid_roster
            &&& post_p.selected == pre_p.selected
            &&& post_b.state is AwaitingAction
            &&& out.event is Continue
            &&& !out.exit_battle
            &&& out.switched_to is None
        }
    }
}

/// A tick whose action leaves the whole game state unchanged apart from the
/// machine state.
pub open spec fn quiet_applied(
    pre_p: GameProgress,
    pre_b: Battle,
    post_p: GameProgress,
    post_b: Battle,
    out: BattleOutcome,
) -> bool {
    &&& ledger_scalars_unchanged(pre_p, post_p)
    &&& post_p.roster@ == pre_p.roster@
    &&& post_p.selected == pre_p.selected
    &&& enemy_unchanged(pre_b, post_b)
    &&& no_exchange_out(out)
    &&& out.switched_to is None
}

/// One voluntary cycle tick: switch to the soonest living other monster, or
/// report that there is nothing to cycle to; the battle continues either
/// way.
pub open spec fn cycle_applied(
    pre_p: GameProgress,
    pre_b: Battle,
    post_p: GameProgress,
    post_b: Battle,
    out: BattleOutcome,
) -> bool {
    &&& ledger_scalars_unchanged(pre_p, post_p)
    &&& post_p.roster@ == pre_p.roster@
    &&& enemy_unchanged(pre_b, post_b)
    &&& no_exchange_out(out)
    &&& post_b.state is AwaitingAction
    &&& !out.exit_battle
    &&& cycle_choice_ok(pre_p.roster@, pre_p.selected as int, out.switched_to)
    &&& match out.switched_to {
        Some(k) => post_p.selected == k && out.event is Cycled,
        None => post_p.selected == pre_p.selected && out.event is NoCycleTarget,
    }
}

/// One heal-item tick: with no item held nothing happens; otherwise one
/// item is consumed and the whole roster — fallen monsters included — is
/// healed by `current_level * 3`, clamped to each maximum.
pub open spec fn heal_applied(
    pre_p: GameProgress,
    pre_b: Battle,
    post_p: GameProgress,
    post_b: Battle,
    out: BattleOutcome,
) -> bool {
    &&& enemy_unchanged(pre_b, post_b)
    &&& no_exchange_out(out)
    &&& post_b.state is AwaitingAction
    &&& !out.exit_battle
    &&& out.switched_to is None
    &&& post_p.selected == pre_p.selected
    &&& post_p.current_level == pre_p.current_level
    &&& post_p.num_boss_defeated == pre_p.num_boss_defeated
    &&& post_p.num_battles_won == pre_p.num_battles_won
    &&& post_p.buff_items == pre_p.buff_items
    &&& post_p.strength_buff_turns == pre_p.strength_buff_turns
    &&& post_p.quests@ == pre_p.quests@
    &&& if pre_p.heal_items == 0 {
        &&& out.event is InsufficientInventory
        &&& post_p.heal_items == 0
        &&& post_p.roster@ == pre_p.roster@
    } else {
        &&& out.event is Healed
        &&& post_p.heal_items == pre_p.heal_items - 1
        &&& post_p.roster@.len() == pre_p.roster@.len()
        &&& forall|i: int|
            0 <= i < pre_p.roster@.len() ==> #[trigger] post_p.roster@[i] == (MonsterRecord {
                id: pre_p.roster@[i].id,
                stats: healed(pre_p.roster@[i].stats, 3 * pre_p.current_level),
            })
    }
}

/// One strength-buff tick: with no item held nothing happens; otherwise one
/// item is consumed and the buff is set to [`BUFF_TURNS`] remaining turns.
pub open spec fn buff_applied(
    pre_p: GameProgress,
    pre_b: Battle,
    post_p: GameProgress,
    post_b: Battle,
    out: BattleOutcome,
) -> bool {
    &&& enemy_unchanged(pre_b, post_b)
    &&& no_exchange_out(out)
    &&& post_b.state is AwaitingAction
    &&& !out.exit_battle
    &&& out.switched_to is None
    &&& post_p.roster@ == pre_p.roster@
    &&& post_p.selected == pre_p.selected
    &&& post_p.current_level == pre_p.current_level
    &&& post_p.num_boss_defeated == pre_p.num_boss_defeated
    &&& post_p.num_battles_won == pre_p.num_battles_won
    &&& post_p.heal_items == pre_p.heal_items
    &&& post_p.quests@ == pre_p.quests@
    &&& if pre_p.buff_items == 0 {
        &&& out.event is InsufficientInventory
        &&& post_p.buff_items == 0
        &&& post_p.strength_buff_turns == pre_p.strength_buff_turns
    } else {
        &&& out.event is BuffApplied
        &&& post_p.buff_items == pre_p.buff_items - 1
        &&& post_p.strength_buff_turns == BUFF_TURNS
    }
}

/// What processing one action does to the whole game state. If the selected
/// monster is already down when the action arrives, the switch-or-end
/// branch is forced instead of the action; otherwise the action itself is
/// processed. `ea`, `rp` and `re` are the enemy action and crit rolls the
/// exchange (if any) consumed.
pub open spec fn step_applied(
    pre_p: GameProgress,
    pre_b: Battle,
    post_p: GameProgress,
    post_b: Battle,
    out: BattleOutcome,
    table: TypeSystem,
    action: Action,
    ea: TurnAction,
    rp: int,
    re: int,
) -> bool {
    &&& post_p.wf()
    &&& if !living_at(pre_p.roster@, pre_p.selected as int) {
        &&& ledger_scalars_unchanged(pre_p, post_p)
        &&& enemy_unchanged(pre_b, post_b)
        &&& no_exchange_out(out)
        &&& switch_or_end_applied(pre_p.roster@, pre_p.selected as int, post_p, post_b, out)
    } else {
        match action {
            Action::Attack => attack_applied(pre_p, pre_b, post_p, post_b, out, table, false, ea,
                rp, re),
            Action::ElementalAttack => attack_applied(pre_p, pre_b, post_p, post_b, out, table,
                true, ea, rp, re),
            Action::Defend => {
                &&& quiet_applied(pre_p, pre_b, post_p, post_b, out)
                &&& post_b.state is AwaitingAction
                &&& out.event is Defended
                &&& !out.exit_battle
            },
            Action::Abort => {
                &&& quiet_applied(pre_p, pre_b, post_p, post_b, out)
                &&& post_b.state is Concluded
                &&& out.event is Aborted
                &&& out.exit_battle
            },
            Action::CycleMonster => cycle_applied(pre_p, pre_b, post_p, post_b, out),
            Action::UseHealItem => heal_applied(pre_p, pre_b, post_p, post_b, out),
            Action::UseStrengthBuff => buff_applied(pre_p, pre_b, post_p, post_b, out),
        }
    }
}

/// Builds the outcome of a tick with no exchange.
fn quiet_outcome(event: BattleEvent, switched_to: Option<usize>, exit_battle: bool) -> (out:
    BattleOutcome)
    ensures
        out == (BattleOutcome {
            event,
            damage_to_enemy: 0,
            damage_to_player: 0,
            enemy_action: None,
            switched_to,
            captured: false,
            leveled_by: 0,
            boss_defeated: false,
            spawn_npc: false,
            exit_battle,
        }),
{
    BattleOutcome {
        event,
        damage_to_enemy: 0,
        damage_to_player: 0,
        enemy_action: None,
        switched_to,
        captured: false,
        leveled_by: 0,
        boss_defeated: false,
        spawn_npc: false,
        exit_battle,
    }
}

/// Switches to the next living monster or ends the battle in defeat,
/// reporting the given exchange damages (zero when no exchange happened).
fn switch_or_end(
    battle: &mut Battle,
    progress: &mut GameProgress,
    damage_to_enemy: i64,
    damage_to_player: i64,
    enemy_action: Option<TurnAction>,
) -> (out: BattleOutcome)
    requires
        old(progress).wf(),
        old(progress).roster@.len() > 0,
    ensures
        final(progress).wf(),
        switch_or_end_applied(old(progress).roster@, old(progress).selected as int,
            *final(progress), *final(battle), out),
        ledger_scalars_unchanged(*old(progress), *final(progress)),
        enemy_unchanged(*old(battle), *final(battle)),
        out.damage_to_enemy == damage_to_enemy,
        out.damage_to_player == damage_to_player,
        out.enemy_action == enemy_action,
        !out.captured,
        out.leveled_by == 0,
        !out.boss_defeated,
        !out.spawn_npc,
{
    let sel = progress.selected;
    match progress.next_monster_cyclic(sel) {
        Some(k) => {
            progress.selected = k;
            battle.state = BattleState::AwaitingAction;
            BattleOutcome {
                event: BattleEvent::SwitchedMonster,
                damage_to_enemy,
                damage_to_player,
                enemy_action,
                switched_to: Some(k),
                captured: false,
                leveled_by: 0,
                boss_defeated: false,
                spawn_npc: false,
                exit_battle: false,
            }
        },
        None => {
            progress.selected = 0;
            battle.state = BattleState::Concluded;
            BattleOutcome {
                event: BattleEvent::Defeat,
                damage_to_enemy,
                damage_to_player,
                enemy_action,
                switched_to: None,
                captured: false,
                leveled_by: 0,
                boss_defeated: false,
                spawn_npc: false,
                exit_battle: true,
            }
        },
    }
}

/// Applies the full victory sequence after the enemy's health reached zero:
/// capture with clamped health, win counters, quest rewards, roster-wide
/// leveling, boss tag cleared, selection reset, battle concluded.
fn process_victory(
    battle: &mut Battle,
    progress: &mut GameProgress,
    damage_to_enemy: i64,
    damage_to_player: i64,
    enemy_action: TurnAction,
) -> (out: BattleOutcome)
    requires
        old(progress).wf(),
        old(progress).roster@.len() > 0,
        old(progress).roster@.len() < ROSTER_LIMIT,
        !old(progress).has_id(old(battle).enemy_id),
        stats_ok(captured_stats(old(battle).enemy, old(progress).current_level)),
        old(progress).num_battles_won < COUNT_LIMIT,
        old(progress).num_boss_defeated < COUNT_LIMIT,
        old(progress).heal_items + old(progress).quests@.len() <= COUNT_LIMIT,
        forall|i: int|
            0 <= i < old(progress).roster@.len() && living_at(old(progress).roster@, i)
                ==> GameProgress::level_room(#[trigger] old(progress).roster@[i].stats, 2),
        GameProgress::level_room(
            captured_stats(old(battle).enemy, old(progress).current_level),
            2,
        ),
    ensures
        final(progress).wf(),
        victory_applied(old(progress).roster@, *old(progress), old(battle).enemy,
            old(battle).enemy_id, old(battle).enemy_boss, *final(progress), *final(battle), out),
        final(progress).strength_buff_turns == old(progress).strength_buff_turns,
        final(battle).enemy == old(battle).enemy,
        out.damage_to_enemy == damage_to_enemy,
        out.damage_to_player == damage_to_player,
        out.enemy_action == Some(enemy_action),
{
    let boss = battle.enemy_boss;
    let cap_health: u64 = progress.current_level * 10;
    let cap = MonsterStats {
        typing: battle.enemy.typing,
        lvl: battle.enemy.lvl,
        hp: Health { health: cap_health as i64, max_health: cap_health },
        stg: battle.enemy.stg,
        def: battle.enemy.def,
    };
    progress.new_monster(battle.enemy_id, cap);
    if boss {
        progress.win_boss();
    } else {
        progress.win_battle();
    }
    let _rewarded = progress.get_quest_rewards(battle.enemy.typing);
    let by: u64 = if boss {
        2
    } else {
        1
    };
    progress.level_up_living(by);
    progress.selected = 0;
    battle.state = BattleState::Concluded;
    battle.enemy_boss = false;
    BattleOutcome {
        event: BattleEvent::Victory,
        damage_to_enemy,
        damage_to_player,
        enemy_action: Some(enemy_action),
        switched_to: None,
        captured: true,
        leveled_by: by,
        boss_defeated: boss,
        spawn_npc: boss,
        exit_battle: true,
    }
}

/// Resolves one attack or elemental-attack exchange and applies its
/// consequences.
fn attack_exchange(
    battle: &mut Battle,
    progress: &mut GameProgress,
    table: &TypeSystem,
    elemental: bool,
    enemy_action: TurnAction,
    player_roll: i64,
    enemy_roll: i64,
) -> (out: BattleOutcome)
    requires
        battle_ok(*old(battle), *old(progress)),
        victory_room(*old(progress), *old(battle)),
        living_at(old(progress).roster@, old(progress).selected as int),
        table.wf(),
        0 <= player_roll <= CRIT_ROLL_MAX,
        0 <= enemy_roll <= CRIT_ROLL_MAX,
    ensures
        final(progress).wf(),
        attack_applied(*old(progress), *old(battle), *final(progress), *final(battle), out,
            *table, elemental, enemy_action, player_roll as int, enemy_roll as int),
{
    let sel = progress.selected;
    let bonus = progress.consume_buff_charge();
    let rec = progress.roster[sel];
    let my_stg = Strength {
        atk: rec.stats.stg.atk + bonus as i64,
        crt: rec.stats.stg.crt,
        crt_dmg: rec.stats.stg.crt_dmg,
    };
    let my_act = if elemental {
        TurnAction::Elemental
    } else {
        TurnAction::Attack
    };
    let damages = resolve_turn(&my_stg, &rec.stats.def, rec.stats.typing, my_act,
        &battle.enemy.stg, &battle.enemy.def, battle.enemy.typing, enemy_action, player_roll,
        enemy_roll, table);
    let d_enemy = damages.0;
    let d_player = damages.1;
    progress.apply_damage(sel, d_player);
    let enemy_health: i64 = battle.enemy.hp.health - d_enemy;
    battle.enemy = MonsterStats {
        typing: battle.enemy.typing,
        lvl: battle.enemy.lvl,
        hp: Health { health: enemy_health, max_health: battle.enemy.hp.max_health },
        stg: battle.enemy.stg,
        def: battle.enemy.def,
    };
    proof {
        assert(forall|i: int|
            0 <= i < progress.roster@.len() ==> #[trigger] progress.roster@[i].id == old(
                progress,
            ).roster@[i].id);
        if progress.has_id(old(battle).enemy_id) {
            let i = choose|i: int|
                0 <= i < progress.roster@.len() && progress.roster@[i].id == old(
                    battle,
                ).enemy_id;
            assert(old(progress).roster@[i].id == old(battle).enemy_id);
            assert(old(progress).has_id(old(battle).enemy_id));
        }
    }
    if enemy_health <= 0 {
        process_victory(battle, progress, d_enemy, d_player, enemy_action)
    } else if progress.roster[sel].stats.hp.health <= 0 {
        switch_or_end(battle, progress, d_enemy, d_player, Some(enemy_action))
    } else {
        battle.state = BattleState::AwaitingAction;
        BattleOutcome {
            event: BattleEvent::Continue,
            damage_to_enemy: d_enemy,
            damage_to_player: d_player,
            enemy_action: Some(enemy_action),
            switched_to: None,
            captured: false,
            leveled_by: 0,
            boss_defeated: false,
            spawn_npc: false,
            exit_battle: false,
        }
    }
}

/// Processes one player action deterministically: the enemy's action and
/// both crit rolls are inputs, so the contract pins the entire next state
/// through [`step_applied`].
pub fn step(
    battle: &mut Battle,
    progress: &mut GameProgress,
    table: &TypeSystem,
    action: Action,
    enemy_action: TurnAction,
    player_roll: i64,
    enemy_roll: i64,
) -> (out: BattleOutcome)
    requires
        battle_ok(*old(battle), *old(progress)),
        old(battle).state is AwaitingAction,
        victory_room(*old(progress), *old(battle)),
        table.wf(),
        0 <= player_roll <= CRIT_ROLL_MAX,
        0 <= enemy_roll <= CRIT_ROLL_MAX,
    ensures
        final(progress).wf(),
        step_applied(*old(progress), *old(battle), *final(progress), *final(battle), out, *table,
            action, enemy_action, player_roll as int, enemy_roll as int),
        final(battle).state is Concluded <==> out.exit_battle,
        !out.exit_battle ==> final(battle).state is AwaitingAction,
{
    battle.state = BattleState::Resolving;
    let sel = progress.selected;
    if progress.roster[sel].stats.hp.health <= 0 {
        return switch_or_end(battle, progress, 0, 0, None);
    }
    match action {
        Action::Attack => attack_exchange(battle, progress, table, false, enemy_action,
            player_roll, enemy_roll),
        Action::ElementalAttack => attack_exchange(battle, progress, table, true, enemy_action,
            player_roll, enemy_roll),
        Action::Defend => {
            battle.state = BattleState::AwaitingAction;
            quiet_outcome(BattleEvent::Defended, None, false)
        },
        Action::Abort => {
            battle.state = BattleState::Concluded;
            quiet_outcome(BattleEvent::Aborted, None, true)
        },
        Action::CycleMonster => {
            let next = progress.next_monster_cyclic(sel);
            battle.state = BattleState::AwaitingAction;
            match next {
                Some(k) => {
                    progress.selected = k;
                    quiet_outcome(BattleEvent::Cycled, Some(k), false)
                },
                None => quiet_outcome(BattleEvent::NoCycleTarget, None, false),
            }
        },
        Action::UseHealItem => {
            battle.state = BattleState::AwaitingAction;
            if progress.heal_items == 0 {
                quiet_outcome(BattleEvent::InsufficientInventory, None, false)
            } else {
                progress.heal_items = progress.heal_items - 1;
                let amount: i64 = (progress.current_level * 3) as i64;
                progress.heal_all(amount);
                quiet_outcome(BattleEvent::Healed, None, false)
            }
        },
        Action::UseStrengthBuff => {
            battle.state = BattleState::AwaitingAction;
            if progress.buff_items == 0 {
                quiet_outcome(BattleEvent::InsufficientInventory, None, false)
            } else {
                progress.buff_items = progress.buff_items - 1;
                progress.strength_buff_turns = BUFF_TURNS;
                quiet_outcome(BattleEvent::BuffApplied, None, false)
            }
        },
    }
}

/// Processes one player action as the surrounding game sees it: the enemy's
/// action is drawn uniformly from its four choices and the two crit rolls
/// uniformly from `0..=CRIT_ROLL_MAX`, and the rest is exactly one
/// deterministic [`step`]. Everything this can produce is a [`step`] result
/// for some in-range draws.
pub fn handle_action(
    battle: &mut Battle,
    progress: &mut GameProgress,
    table: &TypeSystem,
    action: Action,
) -> (out: BattleOutcome)
    requires
        battle_ok(*old(battle), *old(progress)),
        old(battle).state is AwaitingAction,
        victory_room(*old(progress), *old(battle)),
        table.wf(),
    ensures
        final(progress).wf(),
        exists|ea: TurnAction, rp: int, re: int|
            0 <= rp <= CRIT_ROLL_MAX && 0 <= re <= CRIT_ROLL_MAX && #[trigger] step_applied(
                *old(progress),
                *old(battle),
                *final(progress),
                *final(battle),
                out,
                *table,
                action,
                ea,
                rp,
                re,
            ),
        final(battle).state is Concluded <==> out.exit_battle,
        !out.exit_battle ==> final(battle).state is AwaitingAction,
{
    match action {
        Action::Attack | Action::ElementalAttack => {
            let ea_roll = roll_between(0, 3);
            let ea = if ea_roll == 0 {
                TurnAction::Attack
            } else if ea_roll == 1 {
                TurnAction::Defend
            } else if ea_roll == 2 {
                TurnAction::Elemental
            } else {
                TurnAction::Special
            };
            let player_roll = roll_between(0, CRIT_ROLL_MAX);
            let enemy_roll = roll_between(0, CRIT_ROLL_MAX);
            let out = step(battle, progress, table, action, ea, player_roll, enemy_roll);
            proof {
                assert(step_applied(*old(progress), *old(battle), *final(progress),
                    *final(battle), out, *table, action, ea, player_roll as int,
                    enemy_roll as int));
            }
            out
        },
        _ => {
            let out = step(battle, progress, table, action, TurnAction::Defend, 0, 0);
            proof {
                assert(step_applied(*old(progress), *old(battle), *final(progress),
                    *final(battle), out, *table, action, TurnAction::Defend, 0, 0));
            }
            out
        },
    }
}

/// Defeating a non-boss enemy grows the roster by exactly one and leaves
/// the boss counter unchanged, with every living monster leveled once;
/// defeating a boss additionally raises the boss counter by one, and the
/// leveling is applied twice: every monster that survived the exchange
/// gains exactly two levels.
pub proof fn lemma_victory_accounting(
    pre_p: GameProgress,
    pre_b: Battle,
    post_p: GameProgress,
    post_b: Battle,
    out: BattleOutcome,
    table: TypeSystem,
    action: Action,
    ea: TurnAction,
    rp: int,
    re: int,
)
    requires
        pre_p.wf(),
        pre_p.roster@.len() > 0,
        pre_b.enemy.hp.health > 0,
        victory_room(pre_p, pre_b),
        living_at(pre_p.roster@, pre_p.selected as int),
        action is Attack || action is ElementalAttack,
        step_applied(pre_p, pre_b, post_p, post_b, out, table, action, ea, rp, re),
        out.event is Victory,
    ensures
        post_p.roster@.len() == pre_p.roster@.len() + 1,
        out.captured,
        !pre_b.enemy_boss ==> post_p.num_boss_defeated == pre_p.num_boss_defeated
            && post_p.num_battles_won == pre_p.num_battles_won + 1 && out.leveled_by == 1,
        pre_b.enemy_boss ==> post_p.num_boss_defeated == pre_p.num_boss_defeated + 1
            && post_p.num_battles_won == pre_p.num_battles_won && out.leveled_by == 2,
        pre_b.enemy_boss ==> forall|i: int|
            0 <= i < pre_p.roster@.len() && i != pre_p.selected && living_at(pre_p.roster@, i)
                ==> #[trigger] post_p.roster@[i].stats.lvl.level == pre_p.roster@[i].stats.lvl.level
                + 2,
        out.spawn_npc == pre_b.enemy_boss,
{
    let sel = pre_p.selected as int;
    let rec = pre_p.roster@[sel];
    let elemental = action is ElementalAttack;
    let my_act = if elemental {
        TurnAction::Elemental
    } else {
        TurnAction::Attack
    };
    let dmg = turn_damages(buffed(rec.stats.stg, buff_bonus(pre_p)), rec.stats.def,
        rec.stats.typing, my_act, pre_b.enemy.stg, pre_b.enemy.def, pre_b.enemy.typing, ea, rp,
        re, table);
    let enemy_health = pre_b.enemy.hp.health - dmg.0;
    assert(enemy_health <= 0);
    let mid_roster = pre_p.roster@.update(sel, MonsterRecord {
        id: rec.id,
        stats: MonsterStats {
            hp: Health { health: (rec.stats.hp.health - dmg.1) as i64, ..rec.stats.hp },
            ..rec.stats
        },
    });
    let cap = MonsterRecord {
        id: pre_b.enemy_id,
        stats: captured_stats(pre_b.enemy, pre_p.current_level),
    };
    let by: u64 = if pre_b.enemy_boss {
        2
    } else {
        1
    };
    assert(post_p.roster@ == leveled_roster(mid_roster.push(cap), by));
    assert(post_p.roster@.len() == pre_p.roster@.len() + 1);
    if pre_b.enemy_boss {
        assert forall|i: int|
            0 <= i < pre_p.roster@.len() && i != pre_p.selected && living_at(pre_p.roster@, i)
                implies #[trigger] post_p.roster@[i].stats.lvl.level == pre_p.roster@[
            i].stats.lvl.level + 2 by {
            let m = mid_roster.push(cap);
            assert(m[i] == pre_p.roster@[i]);
            assert(living_at(m, i));
            assert(post_p.roster@[i] == leveled_roster(m, by)[i]);
            assert(GameProgress::level_room(pre_p.roster@[i].stats, 2));
        }
    }
}

} // verus!
