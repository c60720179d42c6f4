use waste_core::battle::{handle_action, step, Action, Battle, BattleEvent, BattleState};
use waste_core::progress::GameProgress;
use waste_core::stats::{Defense, Element, Health, Level, MonsterStats, Strength};
use waste_core::turn::TurnAction;
use waste_core::types::TypeSystem;

fn monster(typing: Element, health: i64, max: u64, atk: i64, def: i64) -> MonsterStats {
    MonsterStats {
        typing,
        lvl: Level { level: 1 },
        hp: Health { health, max_health: max },
        stg: Strength { atk, crt: 0, crt_dmg: 2 },
        def: Defense { def, crt_res: 0 },
    }
}

#[test]
fn battle_opens_awaiting_action() {
    let enemy = monster(Element::Rad, 30, 30, 9, 7);
    let b = Battle::new(500, enemy, false);
    assert_eq!(b.state, BattleState::AwaitingAction);
    assert_eq!(b.enemy_id, 500);
    assert!(!b.enemy_boss);
}

#[test]
fn scenario_attack_into_defend_is_harmless() {
    // Player atk 12, def 5, crt 0; enemy def 7, crt_res 0; the enemy defends.
    let mut p = GameProgress::new();
    p.new_monster(1, monster(Element::Scav, 20, 20, 12, 5));
    let mut b = Battle::new(500, monster(Element::Rad, 30, 30, 9, 7), false);
    let t = TypeSystem::neutral();
    let out = step(&mut b, &mut p, &t, Action::Attack, TurnAction::Defend, 100, 100);
    assert_eq!(out.damage_to_enemy, 0);
    assert_eq!(out.damage_to_player, 0);
    assert_eq!(out.event, BattleEvent::Continue);
    assert_eq!(out.enemy_action, Some(TurnAction::Defend));
    assert_eq!(p.roster[0].stats.hp.health, 20);
    assert_eq!(b.enemy.hp.health, 30);
    assert!(!out.exit_battle);
}

#[test]
fn scenario_plain_attack_deals_seven() {
    // Player atk 12 vs enemy def 5, crit roll forced above the chance.
    let mut p = GameProgress::new();
    let mut attacker = monster(Element::Scav, 20, 20, 12, 5);
    attacker.stg.crt = 10;
    p.new_monster(1, attacker);
    let mut b = Battle::new(500, monster(Element::Rad, 30, 30, 2, 5), false);
    let t = TypeSystem::neutral();
    let out = step(&mut b, &mut p, &t, Action::Attack, TurnAction::Attack, 100, 100);
    assert_eq!(out.damage_to_enemy, 7);
    assert_eq!(out.damage_to_player, 0);
    assert_eq!(out.event, BattleEvent::Continue);
    assert_eq!(b.enemy.hp.health, 23);
}

#[test]
fn scenario_boss_falls_with_full_rewards() {
    // The killing blow on a boss: capture, double level-up, boss counter,
    // NPC signal.
    let mut p = GameProgress::new();
    p.advance_level(); // current level 2: the capture clamps to 20 health
    p.new_monster(1, monster(Element::Scav, 20, 20, 12, 5));
    p.new_monster(2, monster(Element::Growth, 15, 20, 6, 5));
    let boss = monster(Element::Rad, 3, 90, 3, 5);
    let mut b = Battle::new(500, boss, true);
    let t = TypeSystem::neutral();

    let out = step(&mut b, &mut p, &t, Action::Attack, TurnAction::Attack, 100, 100);

    assert_eq!(out.event, BattleEvent::Victory);
    assert!(out.captured);
    assert_eq!(out.leveled_by, 2);
    assert!(out.boss_defeated);
    assert!(out.spawn_npc);
    assert!(out.exit_battle);
    assert_eq!(out.damage_to_enemy, 7);

    assert_eq!(p.num_boss_defeated, 1);
    assert_eq!(p.num_battles_won, 0);
    assert_eq!(p.roster.len(), 3);
    assert_eq!(p.selected, 0);
    assert_eq!(b.state, BattleState::Concluded);
    assert!(!b.enemy_boss);

    // Both roster monsters were living and leveled twice.
    assert_eq!(p.roster[0].stats.lvl.level, 3);
    assert_eq!(p.roster[1].stats.lvl.level, 3);
    assert_eq!(p.roster[0].stats.hp.health, 40); // 20 max + 2 * 10, fully healed
    // The capture entered at clamped 20 health, then leveled twice as well.
    assert_eq!(p.roster[2].id, 500);
    assert_eq!(p.roster[2].stats.hp.max_health, 40);
    assert_eq!(p.roster[2].stats.hp.health, 40);
    assert_eq!(p.roster[2].stats.lvl.level, 3);
}

#[test]
fn nonboss_victory_counts_one_level_and_no_boss() {
    let mut p = GameProgress::new();
    p.new_monster(1, monster(Element::Scav, 20, 20, 12, 5));
    let mut b = Battle::new(500, monster(Element::Flood, 3, 30, 3, 5), false);
    let t = TypeSystem::neutral();
    let out = step(&mut b, &mut p, &t, Action::Attack, TurnAction::Attack, 100, 100);
    assert_eq!(out.event, BattleEvent::Victory);
    assert_eq!(out.leveled_by, 1);
    assert!(!out.boss_defeated);
    assert!(!out.spawn_npc);
    assert_eq!(p.num_boss_defeated, 0);
    assert_eq!(p.num_battles_won, 1);
    assert_eq!(p.roster.len(), 2);
    assert_eq!(p.roster[0].stats.lvl.level, 2);
}

#[test]
fn victory_completes_matching_quests() {
    let mut p = GameProgress::new();
    p.new_monster(1, monster(Element::Scav, 20, 20, 12, 5));
    p.add_quest(Element::Flood);
    p.add_quest(Element::Ember);
    let mut b = Battle::new(500, monster(Element::Flood, 3, 30, 3, 5), false);
    let t = TypeSystem::neutral();
    let out = step(&mut b, &mut p, &t, Action::Attack, TurnAction::Attack, 100, 100);
    assert_eq!(out.event, BattleEvent::Victory);
    assert_eq!(p.heal_items, 1);
    assert_eq!(p.quests, vec![Element::Ember]);
}

#[test]
fn fallen_player_monster_switches_to_next_living() {
    let mut p = GameProgress::new();
    p.new_monster(1, monster(Element::Scav, 2, 20, 3, 0));
    p.new_monster(2, monster(Element::Growth, 15, 20, 6, 5));
    let mut b = Battle::new(500, monster(Element::Rad, 30, 30, 10, 5), false);
    let t = TypeSystem::neutral();
    let out = step(&mut b, &mut p, &t, Action::Attack, TurnAction::Attack, 100, 100);
    assert_eq!(out.damage_to_player, 10);
    assert_eq!(out.event, BattleEvent::SwitchedMonster);
    assert_eq!(out.switched_to, Some(1));
    assert_eq!(p.selected, 1);
    assert_eq!(p.num_living_monsters, 1);
    assert!(!out.exit_battle);
    assert_eq!(b.state, BattleState::AwaitingAction);
}

#[test]
fn last_monster_falling_ends_in_defeat() {
    let mut p = GameProgress::new();
    p.new_monster(1, monster(Element::Scav, 2, 20, 3, 0));
    let mut b = Battle::new(500, monster(Element::Rad, 30, 30, 10, 5), false);
    let t = TypeSystem::neutral();
    let out = step(&mut b, &mut p, &t, Action::Attack, TurnAction::Attack, 100, 100);
    assert_eq!(out.event, BattleEvent::Defeat);
    assert_eq!(out.switched_to, None);
    assert!(out.exit_battle);
    assert_eq!(p.selected, 0);
    assert_eq!(b.state, BattleState::Concluded);
    // No capture and no leveling on defeat.
    assert_eq!(p.roster.len(), 1);
    assert_eq!(p.num_battles_won, 0);
}

#[test]
fn action_on_downed_monster_forces_the_switch() {
    let mut p = GameProgress::new();
    p.new_monster(1, monster(Element::Scav, 0, 20, 12, 5));
    p.new_monster(2, monster(Element::Growth, 15, 20, 6, 5));
    let mut b = Battle::new(500, monster(Element::Rad, 30, 30, 9, 5), false);
    let t = TypeSystem::neutral();
    // The attack is not accepted: no exchange happens, the switch is forced.
    let out = step(&mut b, &mut p, &t, Action::Attack, TurnAction::Attack, 0, 0);
    assert_eq!(out.event, BattleEvent::SwitchedMonster);
    assert_eq!(out.damage_to_enemy, 0);
    assert_eq!(out.damage_to_player, 0);
    assert_eq!(out.enemy_action, None);
    assert_eq!(p.selected, 1);
    assert_eq!(b.enemy.hp.health, 30);
}

#[test]
fn abort_walks_away_without_rewards() {
    let mut p = GameProgress::new();
    p.new_monster(1, monster(Element::Scav, 20, 20, 12, 5));
    p.new_monster(2, monster(Element::Growth, 15, 20, 6, 5));
    p.selected = 1;
    let mut b = Battle::new(500, monster(Element::Rad, 30, 30, 9, 5), true);
    let t = TypeSystem::neutral();
    let out = step(&mut b, &mut p, &t, Action::Abort, TurnAction::Attack, 0, 0);
    assert_eq!(out.event, BattleEvent::Aborted);
    assert!(out.exit_battle);
    assert_eq!(b.state, BattleState::Concluded);
    // No capture, no leveling, and the selection is left alone.
    assert_eq!(p.roster.len(), 2);
    assert_eq!(p.selected, 1);
    assert_eq!(p.num_boss_defeated, 0);
    assert_eq!(p.roster[0].stats.lvl.level, 1);
}

#[test]
fn defend_passes_the_tick() {
    let mut p = GameProgress::new();
    p.new_monster(1, monster(Element::Scav, 20, 20, 12, 5));
    let mut b = Battle::new(500, monster(Element::Rad, 30, 30, 9, 5), false);
    let t = TypeSystem::neutral();
    let out = step(&mut b, &mut p, &t, Action::Defend, TurnAction::Attack, 0, 0);
    assert_eq!(out.event, BattleEvent::Defended);
    assert_eq!(out.damage_to_player, 0);
    assert_eq!(p.roster[0].stats.hp.health, 20);
    assert_eq!(b.state, BattleState::AwaitingAction);
}

#[test]
fn cycling_switches_and_reports_dead_ends() {
    let mut p = GameProgress::new();
    p.new_monster(1, monster(Element::Scav, 20, 20, 12, 5));
    p.new_monster(2, monster(Element::Growth, 0, 20, 6, 5));
    p.new_monster(3, monster(Element::Flood, 9, 20, 6, 5));
    let mut b = Battle::new(500, monster(Element::Rad, 30, 30, 9, 5), false);
    let t = TypeSystem::neutral();
    // Ordinal 1 is down: the cycle skips it and lands on 2.
    let out = step(&mut b, &mut p, &t, Action::CycleMonster, TurnAction::Attack, 0, 0);
    assert_eq!(out.event, BattleEvent::Cycled);
    assert_eq!(out.switched_to, Some(2));
    assert_eq!(p.selected, 2);

    // With every other monster down there is nothing to cycle to.
    let mut q = GameProgress::new();
    q.new_monster(1, monster(Element::Scav, 20, 20, 12, 5));
    q.new_monster(2, monster(Element::Growth, 0, 20, 6, 5));
    let mut b2 = Battle::new(600, monster(Element::Rad, 30, 30, 9, 5), false);
    let out2 = step(&mut b2, &mut q, &t, Action::CycleMonster, TurnAction::Attack, 0, 0);
    assert_eq!(out2.event, BattleEvent::NoCycleTarget);
    assert_eq!(q.selected, 0);
    assert!(!out2.exit_battle);
}

#[test]
fn heal_item_restores_the_roster() {
    let mut p = GameProgress::new();
    p.advance_level(); // heal amount is 2 * 3 = 6
    p.grant_items(1, 0);
    p.new_monster(1, monster(Element::Scav, 5, 30, 12, 5));
    p.new_monster(2, monster(Element::Growth, -2, 20, 6, 5));
    let mut b = Battle::new(500, monster(Element::Rad, 30, 30, 9, 5), false);
    let t = TypeSystem::neutral();
    let out = step(&mut b, &mut p, &t, Action::UseHealItem, TurnAction::Attack, 0, 0);
    assert_eq!(out.event, BattleEvent::Healed);
    assert_eq!(p.heal_items, 0);
    assert_eq!(p.roster[0].stats.hp.health, 11);
    assert_eq!(p.roster[1].stats.hp.health, 4);
    assert_eq!(p.num_living_monsters, 2);
    assert_eq!(b.enemy.hp.health, 30);
}

#[test]
fn heal_without_item_does_nothing() {
    let mut p = GameProgress::new();
    p.new_monster(1, monster(Element::Scav, 5, 30, 12, 5));
    let mut b = Battle::new(500, monster(Element::Rad, 30, 30, 9, 5), false);
    let t = TypeSystem::neutral();
    let out = step(&mut b, &mut p, &t, Action::UseHealItem, TurnAction::Attack, 0, 0);
    assert_eq!(out.event, BattleEvent::InsufficientInventory);
    assert_eq!(p.roster[0].stats.hp.health, 5);
    assert_eq!(p.heal_items, 0);
}

#[test]
fn strength_buff_boosts_the_next_attacks() {
    let mut p = GameProgress::new();
    for _ in 0..3 {
        p.advance_level(); // current level 4
    }
    p.grant_items(0, 1);
    // Base attack 8 against defense 10 deals nothing without the buff.
    p.new_monster(1, monster(Element::Scav, 20, 20, 8, 5));
    let mut b = Battle::new(500, monster(Element::Rad, 90, 90, 3, 10), false);
    let t = TypeSystem::neutral();

    let out = step(&mut b, &mut p, &t, Action::UseStrengthBuff, TurnAction::Attack, 0, 0);
    assert_eq!(out.event, BattleEvent::BuffApplied);
    assert_eq!(p.buff_items, 0);
    assert_eq!(p.strength_buff_turns, 5);

    // Buffed attack 8 + 4 = 12 against defense 10 deals 2.
    let out2 = step(&mut b, &mut p, &t, Action::Attack, TurnAction::Attack, 100, 100);
    assert_eq!(out2.damage_to_enemy, 2);
    assert_eq!(p.strength_buff_turns, 4);
    assert_eq!(b.enemy.hp.health, 88);
}

#[test]
fn buff_without_item_does_nothing() {
    let mut p = GameProgress::new();
    p.new_monster(1, monster(Element::Scav, 20, 20, 8, 5));
    let mut b = Battle::new(500, monster(Element::Rad, 30, 30, 3, 10), false);
    let t = TypeSystem::neutral();
    let out = step(&mut b, &mut p, &t, Action::UseStrengthBuff, TurnAction::Attack, 0, 0);
    assert_eq!(out.event, BattleEvent::InsufficientInventory);
    assert_eq!(p.strength_buff_turns, 0);
}

#[test]
fn handle_action_draws_a_varying_enemy_action() {
    // Both sides are walls: no damage can land and no one can fall, so the
    // battle accepts attacks forever while the enemy's drawn action varies.
    let mut p = GameProgress::new();
    p.new_monster(1, monster(Element::Scav, 20, 20, 0, 100));
    let mut b = Battle::new(500, monster(Element::Rad, 30, 30, 0, 100), false);
    let t = TypeSystem::neutral();
    let mut seen = [false; 4];
    for _ in 0..80 {
        let out = handle_action(&mut b, &mut p, &t, Action::Attack);
        assert_eq!(out.event, BattleEvent::Continue);
        assert_eq!(out.damage_to_enemy, 0);
        assert_eq!(out.damage_to_player, 0);
        match out.enemy_action {
            Some(TurnAction::Attack) => seen[0] = true,
            Some(TurnAction::Defend) => seen[1] = true,
            Some(TurnAction::Elemental) => seen[2] = true,
            Some(TurnAction::Special) => seen[3] = true,
            None => panic!("an exchange must report the enemy's action"),
        }
    }
    // 80 uniform draws from four choices repeat a single value with
    // vanishing probability.
    assert!(seen.iter().filter(|&&s| s).count() >= 2);
}
