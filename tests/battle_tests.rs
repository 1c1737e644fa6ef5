use battle_sim::battle::{battle_tick, check_battle_end, run_tick, start_battle, Battle, BattleState, TickOutcome};
use battle_sim::combat::{calculate_damage, commit_damage_and_check_deaths, process_unit_ai_and_combat};
use battle_sim::config::BattleConfig;
use battle_sim::items::{init_completed_item_stats, init_item_component_stats, try_combine_items, StatBonus};
use battle_sim::movement::process_unit_movement;
use battle_sim::rng::draw_rolls;
use battle_sim::spatial::{build_collision_cache, find_nearest_enemy, get_grid_cell, BattleCollisionCache};
use battle_sim::stats::{
    apply_upgrade_effects, calculate_unit_stats, create_battle_unit, get_spawn_position, Crew, ItemCatalog,
    UpgradeEffect, UpgradeStat,
};
use battle_sim::types::{BattleStatus, CompletedItem, CrewRarity, CrewTrait, Item, ItemComponent};
use battle_sim::unit::BattleUnit;
use spacetimedb::rand::rngs::StdRng;
use spacetimedb::rand::SeedableRng;
use spacetimedb::Identity;

fn player(n: u8) -> Identity {
    Identity::from_byte_array([n; 32])
}

fn crew(max_hp: u32, attack: u32, defense: u32, items: [Option<Item>; 3]) -> Crew {
    Crew {
        id: 7,
        owner: player(1),
        name: "Zoro".to_string(),
        rarity: CrewRarity::Rare,
        traits: vec![CrewTrait::StrawHat, CrewTrait::Swordsman],
        max_hp,
        ability_power: 10,
        attack,
        attack_speed: 100,
        defense,
        magic_resistance: 5,
        level: 1,
        slot_index: Some(0),
        bench_index: None,
        item1: items[0],
        item2: items[1],
        item3: items[2],
    }
}

fn catalog() -> ItemCatalog {
    ItemCatalog { components: init_item_component_stats(), completed: init_completed_item_stats() }
}

fn unit(id: u64, side: u8, x: i64, y: i64, hp: u32, attack: u32, defense: u32) -> BattleUnit {
    let cfg = BattleConfig::standard();
    let owner = if side == 0 { player(1) } else { player(2) };
    let mut u = create_battle_unit(id, 1, &crew(hp, attack, defense, [None, None, None]), owner, side, (x, y), &catalog(), &vec![], &cfg);
    u.current_hp = hp;
    u
}

fn battle_in_progress() -> Battle {
    let mut b = Battle::new(1, player(1), 0);
    assert!(b.join(player(2), 0));
    b
}

#[test]
fn damage_formula_cases() {
    assert_eq!(calculate_damage(100, 0, 150, false, 1), 100);
    assert_eq!(calculate_damage(100, 100, 150, false, 1), 50);
    assert_eq!(calculate_damage(0, 0, 150, false, 1), 1);
    assert_eq!(calculate_damage(100, 50, 150, false, 1), 66);
}

#[test]
fn damage_crit_multiplies_and_mitigation_reads_defense() {
    assert_eq!(calculate_damage(100, 0, 150, true, 1), 150);
    assert_eq!(calculate_damage(100, 100, 225, true, 1), 112);
    assert_eq!(calculate_damage(u32::MAX, 0, u32::MAX, true, 1), u32::MAX);
}

#[test]
fn grid_cell_clamps_to_grid() {
    assert_eq!(get_grid_cell(1599, 1599), 63);
    assert_eq!(get_grid_cell(5000, 5000), 63);
    assert_eq!(get_grid_cell(-40, 450), 16);
    assert_eq!(BattleConfig::standard().grid_cell(450, 250), 10);
}

#[test]
fn combination_is_unordered() {
    assert_eq!(try_combine_items(ItemComponent::Cutlass, ItemComponent::SniperGoggles), Some(CompletedItem::Yoru));
    assert_eq!(try_combine_items(ItemComponent::SniperGoggles, ItemComponent::Cutlass), Some(CompletedItem::Yoru));
    assert_eq!(try_combine_items(ItemComponent::Meat, ItemComponent::Meat), Some(CompletedItem::GomuGomuNoMi));
    assert_eq!(try_combine_items(ItemComponent::Cutlass, ItemComponent::Cutlass), None);
}

#[test]
fn combined_components_count_as_completed_item_only() {
    let cfg = BattleConfig::standard();
    let c = crew(
        40,
        3,
        8,
        [Some(Item::Component(ItemComponent::Cutlass)), Some(Item::Component(ItemComponent::SniperGoggles)), None],
    );
    let s = calculate_unit_stats(&c, &catalog(), &cfg);
    // Yoru: +10 AD, +15 crit chance, +75 crit damage; the two components' rows are not added
    assert_eq!(s.ad, 13);
    assert_eq!(s.crit_chance, 15);
    assert_eq!(s.crit_damage, 225);
    assert_eq!(s.hp, 40);
    assert_eq!(s.armor, 8);
}

#[test]
fn uncombined_components_add_up() {
    let cfg = BattleConfig::standard();
    let c = crew(
        40,
        3,
        8,
        [Some(Item::Component(ItemComponent::Meat)), None, Some(Item::Component(ItemComponent::ShellDial))],
    );
    let s = calculate_unit_stats(&c, &catalog(), &cfg);
    assert_eq!(s.hp, 90);
    assert_eq!(s.attack_speed, 115);
    assert_eq!(s.max_mana, 100);
}

#[test]
fn completed_item_in_third_slot_pair() {
    let cfg = BattleConfig::standard();
    let c = crew(
        40,
        3,
        8,
        [
            Some(Item::Component(ItemComponent::ToneDial)),
            Some(Item::Completed(CompletedItem::AdamWood)),
            Some(Item::Component(ItemComponent::EnergyDrink)),
        ],
    );
    let s = calculate_unit_stats(&c, &catalog(), &cfg);
    // Tone Dial + Energy Drink make Mirage Flower (+15 AP, +20 mana); Adam Wood adds 30 armor
    assert_eq!(s.ap, 15);
    assert_eq!(s.max_mana, 120);
    assert_eq!(s.armor, 38);
}

#[test]
fn unknown_items_are_skipped() {
    let cfg = BattleConfig::standard();
    let empty = ItemCatalog { components: vec![], completed: vec![] };
    let c = crew(40, 3, 8, [Some(Item::Component(ItemComponent::Meat)), None, None]);
    let s = calculate_unit_stats(&c, &empty, &cfg);
    assert_eq!(s.hp, 40);
}

#[test]
fn saturating_aggregation_stops_at_max() {
    let cfg = BattleConfig::standard();
    let c = crew(
        u32::MAX - 10,
        u32::MAX,
        8,
        [Some(Item::Component(ItemComponent::Meat)), Some(Item::Component(ItemComponent::Cutlass)), None],
    );
    let s = calculate_unit_stats(&c, &catalog(), &cfg);
    assert_eq!(s.hp, u32::MAX);
    assert_eq!(s.ad, u32::MAX);
    let effects = vec![
        UpgradeEffect::Flat { stat: UpgradeStat::Hp, amount: u32::MAX },
        UpgradeEffect::TraitPercent { required: CrewTrait::Swordsman, stat: UpgradeStat::Attack, percent: 500 },
    ];
    let up = apply_upgrade_effects(s, &effects, &c.traits);
    assert_eq!(up.hp, u32::MAX);
    assert_eq!(up.ad, u32::MAX);
}

#[test]
fn upgrades_gate_on_traits() {
    let cfg = BattleConfig::standard();
    let c = crew(40, 10, 8, [None, None, None]);
    let s = calculate_unit_stats(&c, &catalog(), &cfg);
    let effects = vec![
        UpgradeEffect::TraitPercent { required: CrewTrait::Swordsman, stat: UpgradeStat::Attack, percent: 50 },
        UpgradeEffect::TraitFlat { required: CrewTrait::Logia, stat: UpgradeStat::Armor, amount: 100 },
        UpgradeEffect::Flat { stat: UpgradeStat::Mana, amount: 5 },
    ];
    let up = apply_upgrade_effects(s, &effects, &c.traits);
    assert_eq!(up.ad, 15);
    assert_eq!(up.armor, 8);
    assert_eq!(up.max_mana, 105);
}

#[test]
fn new_unit_starts_full_and_ready() {
    let cfg = BattleConfig::standard();
    let c = crew(40, 3, 8, [Some(Item::Component(ItemComponent::EnergyDrink)), None, None]);
    let u = create_battle_unit(4, 9, &c, player(1), 1, (1400, 300), &catalog(), &vec![], &cfg);
    assert_eq!(u.max_hp, 40);
    assert_eq!(u.current_hp, 40);
    assert_eq!(u.max_mana, 120);
    assert_eq!(u.current_mana, 120);
    assert_eq!(u.attack_cooldown, 0);
    assert_eq!(u.radius, 32);
    assert_eq!(u.crew_id, 7);
    assert_eq!(u.mana_per_attack, 20);
}

#[test]
fn spawn_positions_fill_rows_of_five() {
    assert_eq!(get_spawn_position(0, 0), (200, 300));
    assert_eq!(get_spawn_position(6, 0), (280, 450));
    assert_eq!(get_spawn_position(2, 1), (1240, 300));
}

#[test]
fn start_battle_places_field_crew_only() {
    let cfg = BattleConfig::standard();
    let mut benched = crew(30, 2, 5, [None, None, None]);
    benched.slot_index = None;
    let side0 = vec![crew(40, 3, 8, [None, None, None]), benched, crew(50, 4, 8, [None, None, None])];
    let side1 = vec![crew(60, 5, 12, [None, None, None])];
    let units = start_battle(3, player(1), &side0, &vec![], player(2), &side1, &vec![], &catalog(), &cfg);
    assert_eq!(units.len(), 3);
    assert_eq!((units[0].id, units[0].side, units[0].x, units[0].max_hp), (0, 0, 200, 40));
    assert_eq!((units[1].id, units[1].side, units[1].x, units[1].max_hp), (1, 0, 280, 50));
    assert_eq!((units[2].id, units[2].side, units[2].x, units[2].max_hp), (2, 1, 1400, 60));
    assert_eq!(units[2].owner, player(2));
}

#[test]
fn nearest_enemy_skips_dead_and_allies() {
    let cfg = BattleConfig::standard();
    let units = vec![
        unit(0, 0, 100, 100, 10, 5, 0),
        unit(1, 0, 120, 100, 10, 5, 0),
        unit(2, 1, 150, 100, 0, 5, 0),
        unit(3, 1, 400, 100, 10, 5, 0),
        unit(4, 1, 300, 100, 10, 5, 0),
    ];
    let mut cache = BattleCollisionCache::new();
    build_collision_cache(&units, &cfg, &mut cache);
    assert_eq!(cache.entries.len(), 4);
    let t = find_nearest_enemy(&cache, 100, 100, 0, 800).unwrap();
    assert_eq!(cache.entries[t].id, 4);
    assert_eq!(find_nearest_enemy(&cache, 100, 100, 0, 150), None);
}

#[test]
fn nearest_enemy_tie_goes_to_first_record() {
    let cfg = BattleConfig::standard();
    let units = vec![unit(0, 0, 500, 500, 10, 5, 0), unit(1, 1, 600, 500, 10, 5, 0), unit(2, 1, 400, 500, 10, 5, 0)];
    let mut cache = BattleCollisionCache::new();
    build_collision_cache(&units, &cfg, &mut cache);
    let t = find_nearest_enemy(&cache, 500, 500, 0, 800).unwrap();
    assert_eq!(cache.entries[t].id, 1);
}

#[test]
fn rebuilding_index_gives_same_answers() {
    let cfg = BattleConfig::standard();
    let units = vec![unit(0, 0, 100, 100, 10, 5, 0), unit(1, 1, 700, 900, 10, 5, 0), unit(2, 1, 300, 200, 10, 5, 0)];
    let mut first = BattleCollisionCache::new();
    build_collision_cache(&units, &cfg, &mut first);
    let mut second = BattleCollisionCache::new();
    build_collision_cache(&units, &cfg, &mut second);
    build_collision_cache(&units, &cfg, &mut second);
    for (x, y, side) in [(100, 100, 0u8), (700, 900, 1), (0, 1500, 0), (1500, 0, 1)] {
        let a = find_nearest_enemy(&first, x, y, side, 2000).map(|t| first.entries[t].id);
        let b = find_nearest_enemy(&second, x, y, side, 2000).map(|t| second.entries[t].id);
        assert_eq!(a, b);
    }
    assert_eq!(first.entries.len(), second.entries.len());
    assert_eq!(first.entries[1].cell, get_grid_cell(700, 900));
}

#[test]
fn attack_queues_damage_without_touching_hp() {
    let cfg = BattleConfig::standard();
    let mut units = vec![unit(0, 0, 500, 500, 100, 100, 0), unit(1, 1, 600, 500, 100, 10, 50)];
    let mut cache = BattleCollisionCache::new();
    build_collision_cache(&units, &cfg, &mut cache);
    let rolls = vec![99, 99];
    process_unit_ai_and_combat(&mut units, &mut cache, &rolls, &cfg);
    assert_eq!(cache.damage_to_unit[1], 66);
    assert_eq!(cache.damage_to_unit[0], 10);
    assert_eq!(units[1].current_hp, 100);
    assert_eq!(units[0].attack_cooldown, 1000);
    assert_eq!(units[0].target_unit_id, Some(1));
    assert!(units[0].ability_ready);
    commit_damage_and_check_deaths(&mut units, &cache, &cfg);
    assert_eq!(units[1].current_hp, 34);
    assert_eq!(units[0].current_hp, 90);
}

#[test]
fn crit_roll_below_chance_crits() {
    let cfg = BattleConfig::standard();
    let mut units = vec![unit(0, 0, 500, 500, 100, 100, 0), unit(1, 1, 600, 500, 500, 10, 0)];
    units[0].crit_chance = 30;
    let mut cache = BattleCollisionCache::new();
    build_collision_cache(&units, &cfg, &mut cache);
    process_unit_ai_and_combat(&mut units, &mut cache, &vec![29, 99], &cfg);
    assert_eq!(cache.damage_to_unit[1], 150);
}

#[test]
fn far_units_walk_one_step() {
    let cfg = BattleConfig::standard();
    let mut units = vec![unit(0, 0, 100, 500, 100, 10, 0), unit(1, 1, 1500, 500, 100, 10, 0)];
    let mut cache = BattleCollisionCache::new();
    build_collision_cache(&units, &cfg, &mut cache);
    process_unit_movement(&mut units, &cache, &cfg);
    assert_eq!((units[0].x, units[0].y), (105, 500));
    assert_eq!((units[1].x, units[1].y), (1495, 500));
}

#[test]
fn movement_stays_in_arena() {
    let cfg = BattleConfig::standard();
    let mut units = vec![unit(0, 0, 40, 1590, 100, 10, 0), unit(1, 1, 1500, 1599, 100, 10, 0)];
    let mut cache = BattleCollisionCache::new();
    build_collision_cache(&units, &cfg, &mut cache);
    process_unit_movement(&mut units, &cache, &cfg);
    assert_eq!(units[0].y, 1568);
    assert_eq!(units[1].y, 1568);
}

#[test]
fn close_units_hold_position() {
    let cfg = BattleConfig::standard();
    let mut units = vec![unit(0, 0, 500, 500, 100, 10, 0), unit(1, 1, 1000, 500, 100, 10, 0)];
    let mut cache = BattleCollisionCache::new();
    build_collision_cache(&units, &cfg, &mut cache);
    process_unit_movement(&mut units, &cache, &cfg);
    assert_eq!(units[0].x, 500);
    assert_eq!(units[1].x, 1000);
}

#[test]
fn dead_side_zero_loses_after_one_tick() {
    let cfg = BattleConfig::standard();
    let mut state = BattleState {
        battle: battle_in_progress(),
        units: vec![unit(0, 0, 200, 300, 0, 10, 0), unit(1, 1, 1400, 300, 50, 10, 0)],
    };
    let again = run_tick(&mut state, &vec![0, 0], &cfg);
    assert!(!again);
    assert_eq!(state.battle.status, BattleStatus::Finished);
    assert_eq!(state.battle.winner, Some(player(2)));
}

#[test]
fn mutual_elimination_goes_to_side_zero() {
    let cfg = BattleConfig::standard();
    let mut state = BattleState {
        battle: battle_in_progress(),
        units: vec![unit(0, 0, 500, 500, 1, 10, 0), unit(1, 1, 600, 500, 1, 10, 0)],
    };
    let again = run_tick(&mut state, &vec![0, 0], &cfg);
    assert!(!again);
    assert_eq!(state.units[0].current_hp, 0);
    assert_eq!(state.units[1].current_hp, 0);
    assert_eq!(state.battle.status, BattleStatus::Finished);
    assert_eq!(state.battle.winner, Some(player(1)));
}

#[test]
fn side_one_eliminated_goes_to_side_zero() {
    let mut b = battle_in_progress();
    let units = vec![unit(0, 0, 500, 500, 5, 10, 0), unit(1, 1, 600, 500, 0, 10, 0)];
    check_battle_end(&mut b, &units);
    assert_eq!(b.status, BattleStatus::Finished);
    assert_eq!(b.winner, Some(player(1)));
}

#[test]
fn both_sides_alive_keeps_battle_going() {
    let mut b = battle_in_progress();
    let units = vec![unit(0, 0, 500, 500, 5, 10, 0), unit(1, 1, 600, 500, 5, 10, 0)];
    check_battle_end(&mut b, &units);
    assert_eq!(b.status, BattleStatus::InProgress);
    assert_eq!(b.winner, None);
}

#[test]
fn pools_stay_bounded_over_many_ticks() {
    let cfg = BattleConfig::standard();
    let mut state = BattleState {
        battle: battle_in_progress(),
        units: vec![
            unit(0, 0, 200, 300, 300, 12, 5),
            unit(1, 0, 280, 300, 250, 9, 20),
            unit(2, 1, 1400, 300, 400, 7, 10),
            unit(3, 1, 1320, 450, 350, 15, 0),
        ],
    };
    let mut rng = StdRng::seed_from_u64(11);
    let mut ticks = 0;
    let mut outcome = TickOutcome::Continue;
    let mut current = Some(state);
    while outcome == TickOutcome::Continue && ticks < 5000 {
        let (next, o) = battle_tick(true, current, &mut rng, &cfg);
        outcome = o;
        current = next;
        ticks += 1;
        let s = current.as_ref().unwrap();
        for u in &s.units {
            assert!(u.current_hp <= u.max_hp);
            assert!(u.current_mana <= u.max_mana);
        }
    }
    state = current.unwrap();
    assert_eq!(outcome, TickOutcome::Ended);
    assert_eq!(state.battle.status, BattleStatus::Finished);
    assert!(state.battle.winner.is_some());
}

#[test]
fn tick_from_outside_scheduler_is_rejected() {
    let cfg = BattleConfig::standard();
    let state = BattleState { battle: battle_in_progress(), units: vec![unit(0, 0, 200, 300, 0, 10, 0)] };
    let mut rng = StdRng::seed_from_u64(1);
    let (back, outcome) = battle_tick(false, Some(state), &mut rng, &cfg);
    assert_eq!(outcome, TickOutcome::Rejected);
    assert_eq!(back.unwrap().battle.status, BattleStatus::InProgress);
}

#[test]
fn tick_stops_for_missing_or_finished_battle() {
    let cfg = BattleConfig::standard();
    let mut rng = StdRng::seed_from_u64(1);
    let (back, outcome) = battle_tick(true, None, &mut rng, &cfg);
    assert!(back.is_none());
    assert_eq!(outcome, TickOutcome::Stopped);
    let mut b = battle_in_progress();
    check_battle_end(&mut b, &vec![]);
    assert_eq!(b.winner, Some(player(1)));
    let state = BattleState { battle: b, units: vec![unit(0, 1, 200, 300, 9, 10, 0)] };
    let (back, outcome) = battle_tick(true, Some(state), &mut rng, &cfg);
    assert_eq!(outcome, TickOutcome::Stopped);
    assert_eq!(back.unwrap().units[0].current_hp, 9);
}

#[test]
fn rolls_are_percentiles() {
    let mut rng = StdRng::seed_from_u64(5);
    let rolls = draw_rolls(&mut rng, 500);
    assert_eq!(rolls.len(), 500);
    assert!(rolls.iter().all(|r| *r < 100));
    assert!(rolls.iter().any(|r| *r != rolls[0]));
}

#[test]
fn stat_bonus_zero_is_empty() {
    let z = StatBonus::zero();
    assert_eq!(z.hp + z.ad + z.ap + z.mana + z.crit_chance, 0);
}

#[test]
fn crit_chance_above_one_is_kept_and_always_crits() {
    let cfg = BattleConfig::standard();
    let c = crew(
        40,
        100,
        8,
        [
            Some(Item::Component(ItemComponent::SniperGoggles)),
            Some(Item::Completed(CompletedItem::LogPose)),
            Some(Item::Completed(CompletedItem::Yoru)),
        ],
    );
    let upgrades = vec![UpgradeEffect::Flat { stat: UpgradeStat::CritChance, amount: 90 }];
    let mut attacker = create_battle_unit(0, 1, &c, player(1), 0, (500, 500), &catalog(), &upgrades, &cfg);
    assert_eq!(attacker.crit_chance, 135);
    attacker.current_hp = 40;
    let mut units = vec![attacker, unit(1, 1, 600, 500, 500, 10, 0)];
    let mut cache = BattleCollisionCache::new();
    build_collision_cache(&units, &cfg, &mut cache);
    process_unit_ai_and_combat(&mut units, &mut cache, &vec![99, 99], &cfg);
    // 110 attack, crit damage 1.5 + 0.75
    assert_eq!(cache.damage_to_unit[1], 247);
}

#[test]
fn invariant_checks_spot_bad_records() {
    let cfg = BattleConfig::standard();
    let good = unit(0, 0, 200, 300, 10, 10, 0);
    assert!(good.check_wf(&cfg));
    let mut bad = good;
    bad.current_hp = bad.max_hp + 1;
    assert!(!bad.check_wf(&cfg));
    let state = BattleState { battle: battle_in_progress(), units: vec![good, bad] };
    assert!(!state.check_wf(&cfg));
    let waiting = Battle::new(2, player(1), 0);
    assert!(waiting.check_wf());
    let mut broken = waiting;
    broken.status = BattleStatus::InProgress;
    assert!(!broken.check_wf());
}

#[test]
fn cooldown_keeps_counting_down_below_zero() {
    let cfg = BattleConfig::standard();
    let mut units = vec![unit(0, 0, 100, 100, 50, 10, 0), unit(1, 1, 1500, 1500, 50, 10, 0)];
    units[1].attack_cooldown = 30;
    let mut cache = BattleCollisionCache::new();
    build_collision_cache(&units, &cfg, &mut cache);
    process_unit_ai_and_combat(&mut units, &mut cache, &vec![0, 0], &cfg);
    assert_eq!(units[0].attack_cooldown, -50);
    assert_eq!(units[1].attack_cooldown, -20);
    assert_eq!(units[0].target_unit_id, None);
    process_unit_ai_and_combat(&mut units, &mut cache, &vec![0, 0], &cfg);
    assert_eq!(units[0].attack_cooldown, -100);
    assert_eq!(cache.damage_to_unit[0], 0);
}

#[test]
fn cooldown_bottoms_out_at_its_bound() {
    let cfg = BattleConfig::standard();
    let mut units = vec![unit(0, 0, 100, 100, 50, 10, 0)];
    units[0].attack_cooldown = -1_000_000_000 + 10;
    let mut cache = BattleCollisionCache::new();
    build_collision_cache(&units, &cfg, &mut cache);
    process_unit_ai_and_combat(&mut units, &mut cache, &vec![0], &cfg);
    assert_eq!(units[0].attack_cooldown, -1_000_000_000);
}

#[test]
fn units_with_target_in_attack_range_hold_position() {
    let cfg = BattleConfig::standard();
    let mut units = vec![unit(0, 0, 500, 500, 100, 10, 0), unit(1, 1, 1200, 500, 100, 10, 0)];
    let mut cache = BattleCollisionCache::new();
    build_collision_cache(&units, &cfg, &mut cache);
    process_unit_movement(&mut units, &cache, &cfg);
    assert_eq!(units[0].x, 500);
    assert_eq!(units[1].x, 1200);
}

#[test]
fn nearest_enemy_query_takes_any_point_and_range() {
    let cfg = BattleConfig::standard();
    let units = vec![unit(0, 0, 100, 100, 10, 5, 0), unit(1, 1, 700, 900, 10, 5, 0)];
    let mut cache = BattleCollisionCache::new();
    build_collision_cache(&units, &cfg, &mut cache);
    assert_eq!(find_nearest_enemy(&cache, -(1 << 62), 1 << 62, 0, i64::MAX), Some(1));
    assert_eq!(find_nearest_enemy(&cache, i64::MIN, i64::MAX, 0, i64::MAX), None);
    assert_eq!(find_nearest_enemy(&cache, i64::MIN, i64::MAX, 0, 5_000), None);
    assert_eq!(find_nearest_enemy(&cache, 700, 900, 0, -1), Some(1));
    assert_eq!(find_nearest_enemy(&cache, -100, 900, 0, 799), None);
    assert_eq!(find_nearest_enemy(&cache, -100, 900, 0, 800), Some(1));
}
