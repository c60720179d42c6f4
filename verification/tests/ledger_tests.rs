use waste_core::progress::GameProgress;
use waste_core::stats::{Defense, Element, Health, Level, MonsterStats, Strength};

fn monster(typing: Element, health: i64, max: u64, atk: i64) -> MonsterStats {
    MonsterStats {
        typing,
        lvl: Level { level: 1 },
        hp: Health { health, max_health: max },
        stg: Strength { atk, crt: 5, crt_dmg: 2 },
        def: Defense { def: 3, crt_res: 1 },
    }
}

#[test]
fn new_ledger_is_empty() {
    let p = GameProgress::new();
    assert_eq!(p.roster.len(), 0);
    assert_eq!(p.selected, 0);
    assert_eq!(p.num_living_monsters, 0);
    assert_eq!(p.current_level, 1);
    assert_eq!(p.num_boss_defeated, 0);
    assert_eq!(p.num_battles_won, 0);
    assert_eq!(p.heal_items, 0);
    assert_eq!(p.buff_items, 0);
    assert_eq!(p.strength_buff_turns, 0);
    assert!(p.quests.is_empty());
    assert!(!p.game_won());
}

#[test]
fn registration_keeps_insertion_order_and_counts_living() {
    let mut p = GameProgress::new();
    p.new_monster(7, monster(Element::Scav, 10, 10, 4));
    p.new_monster(9, monster(Element::Ember, 0, 10, 4));
    p.new_monster(11, monster(Element::Rad, 6, 10, 4));
    assert_eq!(p.roster.len(), 3);
    assert_eq!(p.roster[0].id, 7);
    assert_eq!(p.roster[1].id, 9);
    assert_eq!(p.roster[2].id, 11);
    // The fallen monster at ordinal 1 is not counted among the living.
    assert_eq!(p.num_living_monsters, 2);
    assert!(p.contains_id(9));
    assert!(!p.contains_id(8));
}

#[test]
fn level_up_fully_restores_health() {
    let mut p = GameProgress::new();
    p.new_monster(1, monster(Element::Growth, 3, 20, 6));
    p.level_up(0, 1);
    let s = p.roster[0].stats;
    assert_eq!(s.lvl.level, 2);
    assert_eq!(s.hp.max_health, 30);
    assert_eq!(s.hp.health, 30);
    assert_eq!(s.stg.atk, 8);
    assert_eq!(s.stg.crt, 10);
    assert_eq!(s.def.def, 4);
}

#[test]
fn level_up_brings_a_fallen_monster_back() {
    let mut p = GameProgress::new();
    p.new_monster(1, monster(Element::Growth, -5, 20, 6));
    assert_eq!(p.num_living_monsters, 0);
    p.level_up(0, 1);
    assert_eq!(p.roster[0].stats.hp.health, 30);
    assert_eq!(p.num_living_monsters, 1);
}

#[test]
fn cycle_with_single_living_monster_finds_none() {
    let mut p = GameProgress::new();
    p.new_monster(1, monster(Element::Scav, 10, 10, 4));
    p.new_monster(2, monster(Element::Ember, 0, 10, 4));
    p.new_monster(3, monster(Element::Flood, -2, 10, 4));
    assert_eq!(p.next_monster_cyclic(0), None);
}

#[test]
fn cycle_from_fallen_monster_picks_next_ordinal() {
    let mut p = GameProgress::new();
    p.new_monster(1, monster(Element::Scav, 0, 10, 4));
    p.new_monster(2, monster(Element::Ember, 8, 10, 4));
    assert_eq!(p.next_monster_cyclic(0), Some(1));
}

#[test]
fn cycle_skips_fallen_and_wraps() {
    let mut p = GameProgress::new();
    p.new_monster(1, monster(Element::Scav, 10, 10, 4));
    p.new_monster(2, monster(Element::Ember, 0, 10, 4));
    p.new_monster(3, monster(Element::Flood, 5, 10, 4));
    // From 0, ordinal 1 is dead: the search lands on 2.
    assert_eq!(p.next_monster_cyclic(0), Some(2));
    // From 2, the search wraps and lands on 0.
    assert_eq!(p.next_monster_cyclic(2), Some(0));
}

#[test]
fn heal_all_clamps_and_resurrects() {
    let mut p = GameProgress::new();
    p.new_monster(1, monster(Element::Scav, 8, 10, 4));
    p.new_monster(2, monster(Element::Ember, -1, 10, 4));
    assert_eq!(p.num_living_monsters, 1);
    p.heal_all(4);
    // 8 + 4 clamps to the maximum of 10; -1 + 4 = 3 is a resurrection.
    assert_eq!(p.roster[0].stats.hp.health, 10);
    assert_eq!(p.roster[1].stats.hp.health, 3);
    assert_eq!(p.num_living_monsters, 2);
}

#[test]
fn heal_all_too_small_to_resurrect_keeps_count() {
    let mut p = GameProgress::new();
    p.new_monster(1, monster(Element::Scav, -9, 10, 4));
    p.heal_all(3);
    assert_eq!(p.roster[0].stats.hp.health, -6);
    assert_eq!(p.num_living_monsters, 0);
}

#[test]
fn quest_rewards_consume_matching_quests() {
    let mut p = GameProgress::new();
    p.add_quest(Element::Ember);
    p.add_quest(Element::Flood);
    p.add_quest(Element::Ember);
    let rewarded = p.get_quest_rewards(Element::Ember);
    assert_eq!(rewarded, 2);
    assert_eq!(p.heal_items, 2);
    assert_eq!(p.quests, vec![Element::Flood]);
}

#[test]
fn quest_rewards_without_match_change_nothing() {
    let mut p = GameProgress::new();
    p.add_quest(Element::Rad);
    let rewarded = p.get_quest_rewards(Element::Scav);
    assert_eq!(rewarded, 0);
    assert_eq!(p.heal_items, 0);
    assert_eq!(p.quests, vec![Element::Rad]);
}

#[test]
fn buff_charges_grant_level_and_run_out() {
    let mut p = GameProgress::new();
    p.advance_level();
    p.advance_level();
    p.strength_buff_turns = 2;
    assert_eq!(p.consume_buff_charge(), 3);
    assert_eq!(p.strength_buff_turns, 1);
    assert_eq!(p.consume_buff_charge(), 3);
    assert_eq!(p.consume_buff_charge(), 0);
    assert_eq!(p.strength_buff_turns, 0);
}

#[test]
fn boss_goal_wins_the_game() {
    let mut p = GameProgress::new();
    for _ in 0..4 {
        p.win_boss();
    }
    p.win_battle();
    assert!(!p.game_won());
    p.win_boss();
    assert!(p.game_won());
    assert_eq!(p.num_boss_defeated, 5);
    assert_eq!(p.num_battles_won, 1);
}

#[test]
fn grant_items_and_reset() {
    let mut p = GameProgress::new();
    p.grant_items(2, 1);
    p.new_monster(1, monster(Element::Scav, 10, 10, 4));
    p.advance_level();
    assert_eq!(p.heal_items, 2);
    assert_eq!(p.buff_items, 1);
    assert_eq!(p.current_level, 2);
    p.reset();
    assert_eq!(p.roster.len(), 0);
    assert_eq!(p.heal_items, 0);
    assert_eq!(p.buff_items, 0);
    assert_eq!(p.current_level, 1);
}
