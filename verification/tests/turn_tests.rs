use waste_core::stats::{Defense, Element, Strength};
use waste_core::turn::{resolve_turn, TurnAction};
use waste_core::types::{TypeSystem, EFF_LIMIT};

fn stg(atk: i64, crt: i64, crt_dmg: i64) -> Strength {
    Strength { atk, crt, crt_dmg }
}

fn def(d: i64, crt_res: i64) -> Defense {
    Defense { def: d, crt_res }
}

/// A table that is neutral everywhere except one directed match-up.
fn table_with(attacker: usize, defender: usize, entry: u64) -> TypeSystem {
    let mut rows: Vec<Vec<u64>> = Vec::new();
    for i in 0..5 {
        let mut row: Vec<u64> = Vec::new();
        for j in 0..5 {
            row.push(if i == attacker && j == defender { entry } else { 100 });
        }
        rows.push(row);
    }
    TypeSystem::from_rows(rows).unwrap()
}

#[test]
fn attack_at_or_below_defense_deals_zero() {
    let t = TypeSystem::neutral();
    // Player attack 5 against defense 9: no minimum-damage floor.
    let d = resolve_turn(
        &stg(5, 0, 2),
        &def(2, 0),
        Element::Scav,
        TurnAction::Attack,
        &stg(9, 0, 2),
        &def(9, 0),
        Element::Growth,
        TurnAction::Attack,
        100,
        100,
        &t,
    );
    assert_eq!(d.0, 0);
    assert_eq!(d.1, 7);

    // Attack exactly equal to defense also deals zero.
    let e = resolve_turn(
        &stg(9, 0, 2),
        &def(0, 0),
        Element::Scav,
        TurnAction::Attack,
        &stg(0, 0, 2),
        &def(9, 0),
        Element::Growth,
        TurnAction::Attack,
        100,
        100,
        &t,
    );
    assert_eq!(e.0, 0);
}

#[test]
fn enemy_defend_cancels_both_damages() {
    // Player atk 12, def 5, crt 0; enemy def 7, crt_res 0; Attack vs Defend.
    let t = TypeSystem::neutral();
    let d = resolve_turn(
        &stg(12, 0, 2),
        &def(5, 0),
        Element::Ember,
        TurnAction::Attack,
        &stg(20, 0, 2),
        &def(7, 0),
        Element::Flood,
        TurnAction::Defend,
        100,
        100,
        &t,
    );
    assert_eq!(d, (0, 0));
}

#[test]
fn player_defend_cancels_both_damages() {
    let t = TypeSystem::neutral();
    let d = resolve_turn(
        &stg(50, 0, 2),
        &def(0, 0),
        Element::Ember,
        TurnAction::Defend,
        &stg(50, 0, 2),
        &def(0, 0),
        Element::Flood,
        TurnAction::Attack,
        0,
        0,
        &t,
    );
    assert_eq!(d, (0, 0));
}

#[test]
fn plain_attack_deals_attack_minus_defense() {
    // Player atk 12 vs enemy def 5, crit roll forced above the chance.
    let t = TypeSystem::neutral();
    let d = resolve_turn(
        &stg(12, 10, 3),
        &def(5, 0),
        Element::Scav,
        TurnAction::Attack,
        &stg(2, 0, 2),
        &def(5, 0),
        Element::Rad,
        TurnAction::Attack,
        100,
        100,
        &t,
    );
    assert_eq!(d.0, 7);
    assert_eq!(d.1, 0);
}

#[test]
fn elemental_damage_truncates_product() {
    // Base 7, multiplier x1.5: trunc(10.5) = 10.
    let t = table_with(2, 3, 150);
    let d = resolve_turn(
        &stg(12, 0, 2),
        &def(5, 0),
        Element::Ember,
        TurnAction::Elemental,
        &stg(0, 0, 2),
        &def(5, 0),
        Element::Flood,
        TurnAction::Attack,
        100,
        100,
        &t,
    );
    assert_eq!(d.0, 10);
}

#[test]
fn elemental_neutral_reproduces_base_damage() {
    let t = TypeSystem::neutral();
    let plain = resolve_turn(
        &stg(12, 0, 2),
        &def(5, 0),
        Element::Ember,
        TurnAction::Attack,
        &stg(0, 0, 2),
        &def(5, 0),
        Element::Flood,
        TurnAction::Attack,
        100,
        100,
        &t,
    );
    let elemental = resolve_turn(
        &stg(12, 0, 2),
        &def(5, 0),
        Element::Ember,
        TurnAction::Elemental,
        &stg(0, 0, 2),
        &def(5, 0),
        Element::Flood,
        TurnAction::Attack,
        100,
        100,
        &t,
    );
    assert_eq!(plain.0, 7);
    assert_eq!(elemental.0, plain.0);
}

#[test]
fn elemental_weak_matchup_truncates_toward_zero() {
    // Base 7, multiplier x0.5: trunc(3.5) = 3.
    let t = table_with(4, 0, 50);
    let d = resolve_turn(
        &stg(12, 0, 2),
        &def(5, 0),
        Element::Rad,
        TurnAction::Elemental,
        &stg(0, 0, 2),
        &def(5, 0),
        Element::Scav,
        TurnAction::Attack,
        100,
        100,
        &t,
    );
    assert_eq!(d.0, 3);
}

#[test]
fn crit_roll_zero_always_crits_when_chance_positive() {
    // Chance 30 - 10 = 20; roll 0 crits and multiplies by 3.
    let t = TypeSystem::neutral();
    let d = resolve_turn(
        &stg(12, 30, 3),
        &def(5, 0),
        Element::Scav,
        TurnAction::Attack,
        &stg(0, 0, 2),
        &def(5, 10),
        Element::Growth,
        TurnAction::Attack,
        0,
        100,
        &t,
    );
    assert_eq!(d.0, 21);
}

#[test]
fn crit_roll_100_never_crits_when_chance_below_100() {
    let t = TypeSystem::neutral();
    let d = resolve_turn(
        &stg(12, 30, 3),
        &def(5, 0),
        Element::Scav,
        TurnAction::Attack,
        &stg(0, 0, 2),
        &def(5, 10),
        Element::Growth,
        TurnAction::Attack,
        100,
        100,
        &t,
    );
    assert_eq!(d.0, 7);
}

#[test]
fn no_crit_when_rating_not_above_resistance() {
    // Even a roll of 0 cannot crit when crt <= crt_res.
    let t = TypeSystem::neutral();
    let d = resolve_turn(
        &stg(12, 10, 3),
        &def(5, 0),
        Element::Scav,
        TurnAction::Attack,
        &stg(0, 0, 2),
        &def(5, 10),
        Element::Growth,
        TurnAction::Attack,
        0,
        0,
        &t,
    );
    assert_eq!(d.0, 7);
}

#[test]
fn crit_and_elemental_multipliers_combine() {
    // Base 7, crit x3 = 21, then x1.5 truncated: 31.
    let t = table_with(1, 4, 150);
    let d = resolve_turn(
        &stg(12, 30, 3),
        &def(5, 0),
        Element::Growth,
        TurnAction::Elemental,
        &stg(0, 0, 2),
        &def(5, 0),
        Element::Rad,
        TurnAction::Attack,
        0,
        100,
        &t,
    );
    assert_eq!(d.0, 31);
}

#[test]
fn special_resolves_like_attack() {
    let t = TypeSystem::neutral();
    let d = resolve_turn(
        &stg(12, 0, 2),
        &def(2, 0),
        Element::Scav,
        TurnAction::Attack,
        &stg(9, 0, 2),
        &def(5, 0),
        Element::Growth,
        TurnAction::Special,
        100,
        100,
        &t,
    );
    assert_eq!(d.1, 7);
}

#[test]
fn from_rows_rejects_bad_tables() {
    // Too few rows.
    let short: Vec<Vec<u64>> = vec![vec![100; 5]; 4];
    assert!(TypeSystem::from_rows(short).is_none());

    // A row of the wrong width.
    let mut ragged: Vec<Vec<u64>> = vec![vec![100; 5]; 5];
    ragged[2] = vec![100; 4];
    assert!(TypeSystem::from_rows(ragged).is_none());

    // An entry above the multiplier bound.
    let mut huge: Vec<Vec<u64>> = vec![vec![100; 5]; 5];
    huge[0][0] = EFF_LIMIT + 1;
    assert!(TypeSystem::from_rows(huge).is_none());

    // A well-formed table is accepted.
    let good: Vec<Vec<u64>> = vec![vec![100; 5]; 5];
    assert!(TypeSystem::from_rows(good).is_some());
}
