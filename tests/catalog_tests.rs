use battle_sim::battle::Battle;
use battle_sim::items::{init_completed_item_stats, init_item_combination_recipes, init_item_component_stats, try_combine_items};
use battle_sim::roster::{
    battle_result, choose_battle, equip_item, remove_item, settle_battle_rewards, MatchDecision, Player, RosterError,
};
use battle_sim::ship::calculate_ship_type;
use battle_sim::stats::Crew;
use battle_sim::treasure::{
    claim_treasure_reward, generate_random_reward, reward_from_draws, generate_rewards, get_island_type, get_reward_count,
    get_reward_description, item_component_at, reward_kind, should_spawn_treasure_island, RewardKind, TreasureError,
    TreasureIsland, TreasureIslandType, TreasureReward, TreasureRewardType,
};
use battle_sim::types::{BattleStatus, CompletedItem, CrewRarity, CrewTrait, Item, ItemComponent, ShipType};
use spacetimedb::rand::rngs::StdRng;
use spacetimedb::rand::SeedableRng;
use spacetimedb::Identity;

fn player(n: u8) -> Identity {
    Identity::from_byte_array([n; 32])
}

fn crew(traits: Vec<CrewTrait>, on_field: bool) -> Crew {
    Crew {
        id: 1,
        owner: player(1),
        name: "Nami".to_string(),
        rarity: CrewRarity::Uncommon,
        traits,
        max_hp: 20,
        ability_power: 10,
        attack: 1,
        attack_speed: 100,
        defense: 5,
        magic_resistance: 5,
        level: 1,
        slot_index: if on_field { Some(1) } else { None },
        bench_index: None,
        item1: None,
        item2: None,
        item3: None,
    }
}

#[test]
fn ship_names_and_assets() {
    assert_eq!(ShipType::ThousandSunny.asset_filename(), "Sunny.png");
    assert_eq!(ShipType::Raft.asset_filename(), "Raft.png");
    assert_eq!(ShipType::BigTopBlaster.display_name(), "Big Top Blaster");
    assert_eq!(ShipType::QueenMama.display_name(), "Queen Mama");
}

#[test]
fn traits_and_ships() {
    assert_eq!(CrewTrait::StrawHat.ship_trait(), Some(ShipType::ThousandSunny));
    assert_eq!(CrewTrait::CrossGuildPirates.ship_trait(), Some(ShipType::BigTopBlaster));
    assert_eq!(CrewTrait::Swordsman.ship_trait(), None);
    assert!(CrewTrait::Giants.is_ship_defining());
    assert!(!CrewTrait::Emperor.is_ship_defining());
}

#[test]
fn item_names_and_descriptions() {
    let sword = Item::Component(ItemComponent::Cutlass);
    assert!(sword.is_component());
    assert_eq!(sword.get_name(), "Cutlass");
    assert_eq!(Item::Component(ItemComponent::SniperGoggles).get_name(), "Sniper Goggles");
    let done = Item::Completed(CompletedItem::ClimaTact);
    assert!(!done.is_component());
    assert_eq!(done.get_name(), "Clima-Tact");
    assert_eq!(done.get_description(), "Tone Dial + Tone Dial: Doubles AP");
    assert_eq!(Item::Component(ItemComponent::Meat).get_description(), "+HP");
}

#[test]
fn stat_tables_start_full() {
    let comps = init_item_component_stats();
    assert_eq!(comps.len(), 8);
    assert_eq!(comps[0].component, ItemComponent::Cutlass);
    assert_eq!(comps[0].bonus.ad, 10);
    assert_eq!(comps[7].bonus.hp, 50);
    let done = init_completed_item_stats();
    assert_eq!(done.len(), 15);
    assert_eq!(done[1].item, CompletedItem::Kabuto);
    assert!(done[1].has_splash);
    assert_eq!(done[2].armor_shred, 5);
    assert_eq!(done[13].bonus.hp_regen, 500);
    let recipes = init_item_combination_recipes();
    assert_eq!(recipes.len(), 15);
    for r in &recipes {
        assert_eq!(try_combine_items(r.component1, r.component2), Some(r.result));
    }
}

#[test]
fn ship_follows_most_common_faction_on_field() {
    let crews = vec![
        crew(vec![CrewTrait::StrawHat, CrewTrait::Swordsman], true),
        crew(vec![CrewTrait::HeartPirates], true),
        crew(vec![CrewTrait::HeartPirates, CrewTrait::Zoan], true),
        crew(vec![CrewTrait::StrawHat], false),
        crew(vec![CrewTrait::StrawHat], false),
    ];
    assert_eq!(calculate_ship_type(&crews), ShipType::PolarTang);
}

#[test]
fn ship_ties_and_raft() {
    let tie = vec![crew(vec![CrewTrait::Giants], true), crew(vec![CrewTrait::RedHairPirates], true)];
    assert_eq!(calculate_ship_type(&tie), ShipType::RedForce);
    let none = vec![crew(vec![CrewTrait::Logia, CrewTrait::Brawler], true)];
    assert_eq!(calculate_ship_type(&none), ShipType::Raft);
    assert_eq!(calculate_ship_type(&vec![]), ShipType::Raft);
}

#[test]
fn treasure_rounds_and_sizes() {
    assert!(should_spawn_treasure_island(5));
    assert!(should_spawn_treasure_island(25));
    assert!(!should_spawn_treasure_island(6));
    assert_eq!(get_island_type(15), TreasureIslandType::MediumIsland);
    assert_eq!(get_island_type(25), TreasureIslandType::LargeIsland);
    assert_eq!(get_island_type(7), TreasureIslandType::SmallIsland);
    assert_eq!(get_reward_count(TreasureIslandType::SmallIsland), 1);
    assert_eq!(get_reward_count(TreasureIslandType::LargeIsland), 3);
}

#[test]
fn reward_kinds_by_roll() {
    assert_eq!(reward_kind(TreasureIslandType::SmallIsland, 59), RewardKind::Gold { low: 50, high: 100 });
    assert_eq!(reward_kind(TreasureIslandType::SmallIsland, 60), RewardKind::Item);
    assert_eq!(reward_kind(TreasureIslandType::MediumIsland, 89), RewardKind::Item);
    assert_eq!(reward_kind(TreasureIslandType::MediumIsland, 90), RewardKind::Reroll);
    assert_eq!(reward_kind(TreasureIslandType::LargeIsland, 0), RewardKind::Gold { low: 200, high: 400 });
    assert_eq!(item_component_at(3), ItemComponent::ToneDial);
}

#[test]
fn random_rewards_stay_in_bounds() {
    let mut rng = StdRng::seed_from_u64(42);
    for _ in 0..200 {
        match generate_random_reward(&mut rng, TreasureIslandType::LargeIsland) {
            TreasureRewardType::Gold(g) => assert!((200..=400).contains(&g)),
            TreasureRewardType::Item(_) | TreasureRewardType::Reroll => {},
            TreasureRewardType::Experience => panic!("no experience on islands"),
        }
    }
    assert_eq!(generate_rewards(&mut rng, TreasureIslandType::MediumIsland).len(), 2);
}

#[test]
fn reward_descriptions() {
    assert_eq!(get_reward_description(&TreasureRewardType::Gold(75)), "75 Berries");
    assert_eq!(get_reward_description(&TreasureRewardType::Gold(0)), "0 Berries");
    assert_eq!(get_reward_description(&TreasureRewardType::Item(ItemComponent::SniperGoggles)), "SniperGoggles");
    assert_eq!(get_reward_description(&TreasureRewardType::Reroll), "Free Shop Reroll");
    assert_eq!(get_reward_description(&TreasureRewardType::Experience), "Bonus Experience");
}

#[test]
fn claiming_treasure() {
    let mut island = TreasureIsland {
        id: 3,
        player: player(1),
        round_number: 5,
        island_type: TreasureIslandType::SmallIsland,
        claimed: false,
    };
    let mut rewards = vec![
        TreasureReward { id: 1, treasure_island_id: 3, reward_type: TreasureRewardType::Gold(80), claimed: false },
        TreasureReward { id: 2, treasure_island_id: 4, reward_type: TreasureRewardType::Gold(999), claimed: false },
        TreasureReward {
            id: 3,
            treasure_island_id: 3,
            reward_type: TreasureRewardType::Item(ItemComponent::Meat),
            claimed: false,
        },
        TreasureReward { id: 4, treasure_island_id: 3, reward_type: TreasureRewardType::Reroll, claimed: false },
    ];
    let mut berries = 10;
    assert_eq!(
        claim_treasure_reward(&mut island, player(2), &mut berries, &mut rewards).unwrap_err(),
        TreasureError::NotOwner
    );
    let items = claim_treasure_reward(&mut island, player(1), &mut berries, &mut rewards).unwrap();
    assert_eq!(items, vec![ItemComponent::Meat]);
    assert_eq!(berries, 92);
    assert!(island.claimed);
    assert!(rewards[0].claimed && rewards[2].claimed && rewards[3].claimed);
    assert!(!rewards[1].claimed);
    assert_eq!(
        claim_treasure_reward(&mut island, player(1), &mut berries, &mut rewards).unwrap_err(),
        TreasureError::AlreadyClaimed
    );
    assert_eq!(berries, 92);
}

#[test]
fn equipping_and_removing_items() {
    let mut c = crew(vec![CrewTrait::Sniper], true);
    for item in [ItemComponent::Cutlass, ItemComponent::Meat, ItemComponent::ShellDial] {
        assert!(equip_item(&mut c, Item::Component(item)).is_ok());
    }
    assert_eq!(equip_item(&mut c, Item::Component(ItemComponent::ToneDial)), Err(RosterError::SlotsFull));
    assert_eq!(c.item2, Some(Item::Component(ItemComponent::Meat)));
    assert_eq!(remove_item(&mut c, 2), Ok(Item::Component(ItemComponent::Meat)));
    assert_eq!(c.item2, None);
    assert_eq!(remove_item(&mut c, 2), Err(RosterError::EmptySlot));
    assert_eq!(remove_item(&mut c, 4), Err(RosterError::EmptySlot));
    assert!(equip_item(&mut c, Item::Completed(CompletedItem::Yoru)).is_ok());
    assert_eq!(c.item2, Some(Item::Completed(CompletedItem::Yoru)));
}

#[test]
fn matchmaking() {
    let open_by_one = Battle::new(1, player(1), 0);
    let mut started = Battle::new(2, player(3), 0);
    assert!(started.join(player(4), 7));
    assert_eq!(started.player2_bounty, 7);
    assert!(!started.join(player(5), 9));
    let battles = vec![started, open_by_one];
    assert_eq!(choose_battle(&battles, player(2)), MatchDecision::Join(1));
    assert_eq!(choose_battle(&battles, player(1)), MatchDecision::AlreadyWaiting);
    assert_eq!(choose_battle(&vec![started], player(1)), MatchDecision::Open);
}

#[test]
fn settling_a_finished_battle() {
    let mut b = Battle::new(1, player(1), 0);
    b.join(player(2), 300);
    assert_eq!(battle_result(&b, player(1)), Err(RosterError::BattleNotFinished));
    b.status = BattleStatus::Finished;
    b.winner = Some(player(2));
    assert_eq!(battle_result(&b, player(9)), Err(RosterError::NotYourBattle));
    assert_eq!(battle_result(&b, player(1)), Ok((player(2), player(1))));
    let mut winner = Player::new(player(2), "B".to_string());
    let mut loser = Player::new(player(1), "A".to_string());
    loser.bounty = 200_000;
    settle_battle_rewards(&mut b, &mut winner, &mut loser);
    assert_eq!(winner.wins, 1);
    assert_eq!(winner.bounty, 100_000);
    assert_eq!(winner.berries, 1_200_000);
    assert_eq!(loser.losses, 1);
    assert_eq!(loser.bounty, 0);
    assert_eq!(b.bounty_reward, 200_000);
}

#[test]
fn rewards_from_draws() {
    assert_eq!(reward_from_draws(TreasureIslandType::SmallIsland, 10, 37, 0), TreasureRewardType::Gold(87));
    assert_eq!(reward_from_draws(TreasureIslandType::LargeIsland, 29, 200, 0), TreasureRewardType::Gold(400));
    assert_eq!(
        reward_from_draws(TreasureIslandType::MediumIsland, 50, 0, 6),
        TreasureRewardType::Item(ItemComponent::EnergyDrink)
    );
    assert_eq!(reward_from_draws(TreasureIslandType::LargeIsland, 95, 0, 3), TreasureRewardType::Reroll);
}

#[test]
fn decimal_text_writes_digits() {
    assert_eq!(battle_sim::treasure::decimal_text(0), "0");
    assert_eq!(battle_sim::treasure::decimal_text(907), "907");
    assert_eq!(battle_sim::treasure::decimal_text(u32::MAX), "4294967295");
    assert_eq!(get_reward_description(&TreasureRewardType::Gold(u32::MAX)), "4294967295 Berries");
}
