use vstd::prelude::*;
use vstd::string::StringExecFns;
use spacetimedb::Identity;
use spacetimedb::rand::rngs::StdRng;
use crate::items::all_components;
use crate::rng::draw_below;
use crate::types::ItemComponent;

verus! {

/// Size of a treasure island, which sets how many rewards it holds.
#[derive(Clone, Copy, Debug, PartialEq, Eq, Structural)]
pub enum TreasureIslandType {
    SmallIsland,
    MediumIsland,
    LargeIsland,
}

/// One reward of a treasure island.
#[derive(Clone, Copy, Debug, PartialEq, Eq, Structural)]
pub enum TreasureRewardType {
    Gold(u32),
    Item(ItemComponent),
    Reroll,
    Experience,
}

/// A treasure island met by a player in some round.
#[derive(Clone, Copy, Debug)]
pub struct TreasureIsland {
    pub id: u64,
    pub player: Identity,
    pub round_number: u32,
    pub island_type: TreasureIslandType,
    pub claimed: bool,
}

/// One reward waiting on a treasure island.
#[derive(Clone, Copy, Debug, PartialEq, Eq, Structural)]
pub struct TreasureReward {
    pub id: u64,
    pub treasure_island_id: u64,
    pub reward_type: TreasureRewardType,
    pub claimed: bool,
}

/// The rounds at which a treasure island appears.
pub open spec fn is_treasure_round(round_number: u32) -> bool {
    round_number == 5 || round_number == 15 || round_number == 25
}

/// Whether the round brings a treasure island.
pub fn should_spawn_treasure_island(round_number: u32) -> (r: bool)
    ensures
        r == is_treasure_round(round_number),
{
    round_number == 5 || round_number == 15 || round_number == 25
}

/// Island size by round: medium at 15, large at 25, small otherwise.
pub open spec fn island_type_spec(round_number: u32) -> TreasureIslandType {
    if round_number == 15 {
        TreasureIslandType::MediumIsland
    } else if round_number == 25 {
        TreasureIslandType::LargeIsland
    } else {
        TreasureIslandType::SmallIsland
    }
}

/// The size of the island met in a round.
pub fn get_island_type(round_number: u32) -> (r: TreasureIslandType)
    ensures
        r == island_type_spec(round_number),
{
    match round_number {
        5 => TreasureIslandType::SmallIsland,
        15 => TreasureIslandType::MediumIsland,
        25 => TreasureIslandType::LargeIsland,
        _ => TreasureIslandType::SmallIsland,
    }
}

/// Number of rewards an island holds: 1, 2 or 3 by size.
pub open spec fn reward_count_spec(island_type: TreasureIslandType) -> u32 {
    match island_type {
        TreasureIslandType::SmallIsland => 1,
        TreasureIslandType::MediumIsland => 2,
        TreasureIslandType::LargeIsland => 3,
    }
}

/// Number of rewards an island holds.
pub fn get_reward_count(island_type: TreasureIslandType) -> (r: u32)
    ensures
        r == reward_count_spec(island_type),
{
    match island_type {
        TreasureIslandType::SmallIsland => 1,
        TreasureIslandType::MediumIsland => 2,
        TreasureIslandType::LargeIsland => 3,
    }
}

/// The kind of reward a roll in `0..100` gives on an island.
#[derive(Clone, Copy, Debug, PartialEq, Eq, Structural)]
pub enum RewardKind {
    /// Gold, an amount drawn from `low..=high`.
    Gold { low: u32, high: u32 },
    /// A component drawn uniformly.
    Item,
    Reroll,
}

/// Small islands: 60% gold (50 to 100), 40% item. Medium: 40% gold (100 to
/// 200), 50% item, 10% reroll. Large: 30% gold (200 to 400), 60% item, 10% reroll.
pub open spec fn reward_kind_spec(island_type: TreasureIslandType, roll: u32) -> RewardKind {
    match island_type {
        TreasureIslandType::SmallIsland => if roll < 60 {
            RewardKind::Gold { low: 50, high: 100 }
        } else {
            RewardKind::Item
        },
        TreasureIslandType::MediumIsland => if roll < 40 {
            RewardKind::Gold { low: 100, high: 200 }
        } else if roll < 90 {
            RewardKind::Item
        } else {
            RewardKind::Reroll
        },
        TreasureIslandType::LargeIsland => if roll < 30 {
            RewardKind::Gold { low: 200, high: 400 }
        } else if roll < 90 {
            RewardKind::Item
        } else {
            RewardKind::Reroll
        },
    }
}

/// The kind of reward a roll gives on an island.
pub fn reward_kind(island_type: TreasureIslandType, roll: u32) -> (r: RewardKind)
    ensures
        r == reward_kind_spec(island_type, roll),
{
    match island_type {
        TreasureIslandType::SmallIsland => if roll < 60 {
            RewardKind::Gold { low: 50, high: 100 }
        } else {
            RewardKind::Item
        },
        TreasureIslandType::MediumIsland => if roll < 40 {
            RewardKind::Gold { low: 100, high: 200 }
        } else if roll < 90 {
            RewardKind::Item
        } else {
            RewardKind::Reroll
        },
        TreasureIslandType::LargeIsland => if roll < 30 {
            RewardKind::Gold { low: 200, high: 400 }
        } else if roll < 90 {
            RewardKind::Item
        } else {
            RewardKind::Reroll
        },
    }
}

/// The component at a place of the component list.
pub fn item_component_at(index: u32) -> (r: ItemComponent)
    requires
        index < 8,
    ensures
        r == all_components()[index as int],
{
    match index {
        0 => ItemComponent::Cutlass,
        1 => ItemComponent::SniperGoggles,
        2 => ItemComponent::ShellDial,
        3 => ItemComponent::ToneDial,
        4 => ItemComponent::SeastoneFragment,
        5 => ItemComponent::TidalCloak,
        6 => ItemComponent::EnergyDrink,
        _ => ItemComponent::Meat,
    }
}

/// A component drawn uniformly from the component list.
pub fn random_item_component(rng: &mut StdRng) -> (r: ItemComponent)
    ensures
        all_components().contains(r),
{
    let i = draw_below(rng, 8);
    let c = item_component_at(i);
    assert(all_components()[i as int] == c);
    c
}

/// The reward that a set of draws gives on an island: the roll picks the
/// kind; gold is the kind's least amount plus `gold_draw`; an item is the
/// component at `item_index` of the component list.
pub open spec fn reward_from_draws_spec(island_type: TreasureIslandType, roll: u32, gold_draw: u32, item_index: u32) -> TreasureRewardType {
    match reward_kind_spec(island_type, roll) {
        RewardKind::Gold { low, high } => TreasureRewardType::Gold((low + gold_draw) as u32),
        RewardKind::Item => TreasureRewardType::Item(all_components()[item_index as int]),
        RewardKind::Reroll => TreasureRewardType::Reroll,
    }
}

/// Draws in their ranges: the roll in `0..100`, the gold draw within the
/// span of the kind's amounts, the item index in `0..8`.
pub open spec fn draws_in_range(island_type: TreasureIslandType, roll: u32, gold_draw: u32, item_index: u32) -> bool {
    &&& roll < 100
    &&& item_index < 8
    &&& match reward_kind_spec(island_type, roll) {
        RewardKind::Gold { low, high } => gold_draw <= high - low,
        _ => true,
    }
}

/// The reward that a set of draws gives on an island.
pub fn reward_from_draws(island_type: TreasureIslandType, roll: u32, gold_draw: u32, item_index: u32) -> (r: TreasureRewardType)
    requires
        draws_in_range(island_type, roll, gold_draw, item_index),
    ensures
        r == reward_from_draws_spec(island_type, roll, gold_draw, item_index),
{
    match reward_kind(island_type, roll) {
        RewardKind::Gold { low, high } => TreasureRewardType::Gold(low + gold_draw),
        RewardKind::Item => TreasureRewardType::Item(item_component_at(item_index)),
        RewardKind::Reroll => TreasureRewardType::Reroll,
    }
}

/// Some draws in their ranges give this reward on the island.
pub open spec fn reward_drawable(island_type: TreasureIslandType, reward: TreasureRewardType) -> bool {
    exists|roll: u32, gold_draw: u32, item_index: u32|
        draws_in_range(island_type, roll, gold_draw, item_index)
            && reward == reward_from_draws_spec(island_type, roll, gold_draw, item_index)
}

/// A random reward for an island of the given size: the reward of draws
/// taken from `rng`, each in its range.
pub fn generate_random_reward(rng: &mut StdRng, island_type: TreasureIslandType) -> (r: TreasureRewardType)
    ensures
        reward_drawable(island_type, r),
{
    let roll = draw_below(rng, 100);
    let (gold_draw, item_index) = match reward_kind(island_type, roll) {
        RewardKind::Gold { low, high } => (draw_below(rng, high - low + 1), 0),
        RewardKind::Item => (0, draw_below(rng, 8)),
        RewardKind::Reroll => (0, 0),
    };
    let r = reward_from_draws(island_type, roll, gold_draw, item_index);
    assert(draws_in_range(island_type, roll, gold_draw, item_index) && r == reward_from_draws_spec(
        island_type,
        roll,
        gold_draw,
        item_index,
    ));
    r
}

/// The rewards of a new island: as many as its size gives, each drawn as
/// `generate_random_reward` draws one.
pub fn generate_rewards(rng: &mut StdRng, island_type: TreasureIslandType) -> (r: Vec<TreasureRewardType>)
    ensures
        r@.len() == reward_count_spec(island_type),
        forall|i: int| 0 <= i < r@.len() ==> reward_drawable(island_type, #[trigger] r@[i]),
{
    let n = get_reward_count(island_type);
    let mut r: Vec<TreasureRewardType> = Vec::new();
    let mut i: u32 = 0;
    while i < n
        invariant
            n == reward_count_spec(island_type),
            i <= n,
            r@.len() == i,
            forall|k: int| 0 <= k < r@.len() ==> reward_drawable(island_type, #[trigger] r@[k]),
        decreases n - i,
    {
        let reward = generate_random_reward(rng, island_type);
        r.push(reward);
        i = i + 1;
    }
    r
}

/// The decimal digit `d`.
pub open spec fn digit_char(d: nat) -> char {
    if d == 0 { '0' } else if d == 1 { '1' } else if d == 2 { '2' } else if d == 3 { '3' } else if d == 4 { '4' }
    else if d == 5 { '5' } else if d == 6 { '6' } else if d == 7 { '7' } else if d == 8 { '8' } else { '9' }
}

/// `n` written in decimal, without leading zeros.
pub open spec fn decimal(n: nat) -> Seq<char>
    decreases n,
{
    if n < 10 { seq![digit_char(n)] } else { decimal(n / 10).push(digit_char(n % 10)) }
}

fn digit_text(d: u32) -> (r: &'static str)
    requires
        d < 10,
    ensures
        r@ == seq![digit_char(d as nat)],
{
    match d {
        0 => {
            proof {
                reveal_strlit("0");
            }
            "0"
        },
        1 => {
            proof {
                reveal_strlit("1");
            }
            "1"
        },
        2 => {
            proof {
                reveal_strlit("2");
            }
            "2"
        },
        3 => {
            proof {
                reveal_strlit("3");
            }
            "3"
        },
        4 => {
            proof {
                reveal_strlit("4");
            }
            "4"
        },
        5 => {
            proof {
                reveal_strlit("5");
            }
            "5"
        },
        6 => {
            proof {
                reveal_strlit("6");
            }
            "6"
        },
        7 => {
            proof {
                reveal_strlit("7");
            }
            "7"
        },
        8 => {
            proof {
                reveal_strlit("8");
            }
            "8"
        },
        _ => {
            proof {
                reveal_strlit("9");
            }
            "9"
        },
    }
}

/// `n` written in decimal.
pub fn decimal_text(n: u32) -> (r: String)
    ensures
        r@ == decimal(n as nat),
    decreases n,
{
    if n < 10 {
        digit_text(n).to_owned()
    } else {
        let mut s = decimal_text(n / 10);
        s.append(digit_text(n % 10));
        assert(s@ =~= decimal(n as nat));
        s
    }
}

/// The amount in decimal, followed by " Berries".
fn berries_text(amount: u32) -> (r: String)
    ensures
        r@ == decimal(amount as nat) + " Berries"@,
{
    let mut s = decimal_text(amount);
    s.append(" Berries");
    s
}

/// How a reward reads to the player.
pub open spec fn reward_description_spec(reward_type: TreasureRewardType) -> Seq<char> {
    match reward_type {
        TreasureRewardType::Gold(amount) => decimal(amount as nat) + " Berries"@,
        TreasureRewardType::Item(component) => component.debug_name_spec()@,
        TreasureRewardType::Reroll => "Free Shop Reroll"@,
        TreasureRewardType::Experience => "Bonus Experience"@,
    }
}

/// How a reward reads to the player.
pub fn get_reward_description(reward_type: &TreasureRewardType) -> (r: String)
    ensures
        r@ == reward_description_spec(*reward_type),
{
    match reward_type {
        TreasureRewardType::Gold(amount) => berries_text(*amount),
        TreasureRewardType::Item(component) => component.debug_name().to_owned(),
        TreasureRewardType::Reroll => "Free Shop Reroll".to_owned(),
        TreasureRewardType::Experience => "Bonus Experience".to_owned(),
    }
}

/// Why a claim on a treasure island was refused.
#[derive(Clone, Copy, Debug, PartialEq, Eq, Structural)]
pub enum TreasureError {
    NotOwner,
    AlreadyClaimed,
}

/// Berries and items that claiming the first `n` rewards hands over: each
/// unclaimed reward of the island adds its gold, or two berries for a reroll
/// (both saturating), or its component to the items.
pub open spec fn claim_spec(rewards: Seq<TreasureReward>, island_id: u64, berries: u32, n: int) -> (u32, Seq<ItemComponent>)
    decreases n,
{
    if n <= 0 {
        (berries, Seq::empty())
    } else {
        let (b, items) = claim_spec(rewards, island_id, berries, n - 1);
        let r = rewards[n - 1];
        if r.treasure_island_id != island_id || r.claimed {
            (b, items)
        } else {
            match r.reward_type {
                TreasureRewardType::Gold(amount) => (if b + amount > u32::MAX { u32::MAX } else { (b + amount) as u32 }, items),
                TreasureRewardType::Item(c) => (b, items.push(c)),
                TreasureRewardType::Reroll => (if b + 2 > u32::MAX { u32::MAX } else { (b + 2) as u32 }, items),
                TreasureRewardType::Experience => (b, items),
            }
        }
    }
}

/// The reward after a claim of its island: marked claimed if it belongs to it.
pub open spec fn claimed_reward(r: TreasureReward, island_id: u64) -> TreasureReward {
    if r.treasure_island_id == island_id { TreasureReward { claimed: true, ..r } } else { r }
}

/// A player claims a treasure island. Refused if the island is another
/// player's, or already claimed; otherwise every unclaimed reward of the
/// island is handed over and marked claimed, the island too, and the
/// components won are returned.
pub fn claim_treasure_reward(
    island: &mut TreasureIsland,
    player: Identity,
    berries: &mut u32,
    rewards: &mut Vec<TreasureReward>,
) -> (r: Result<Vec<ItemComponent>, TreasureError>)
    ensures
        old(island).player != player ==> r == Err::<Vec<ItemComponent>, TreasureError>(TreasureError::NotOwner),
        old(island).player == player && old(island).claimed ==> r == Err::<Vec<ItemComponent>, TreasureError>(TreasureError::AlreadyClaimed),
        r is Err ==> *final(island) == *old(island) && *final(berries) == *old(berries) && final(rewards)@ == old(rewards)@,
        r is Ok <==> (old(island).player == player && !old(island).claimed),
        r matches Ok(items) ==> {
            let (b, won) = claim_spec(old(rewards)@, old(island).id, *old(berries), old(rewards)@.len() as int);
            &&& *final(berries) == b
            &&& items@ == won
            &&& *final(island) == (TreasureIsland { claimed: true, ..*old(island) })
            &&& final(rewards)@ == Seq::new(old(rewards)@.len(), |i: int| claimed_reward(old(rewards)@[i], old(island).id))
        },
{
    if island.player != player {
        return Err(TreasureError::NotOwner);
    }
    if island.claimed {
        return Err(TreasureError::AlreadyClaimed);
    }
    let ghost start = *berries;
    let ghost old_rewards = rewards@;
    let island_id = island.id;
    let mut items: Vec<ItemComponent> = Vec::new();
    let mut i: usize = 0;
    while i < rewards.len()
        invariant
            i <= rewards@.len(),
            rewards@.len() == old_rewards.len(),
            (*berries, items@) == claim_spec(old_rewards, island_id, start, i as int),
            forall|k: int| 0 <= k < i ==> #[trigger] rewards@[k] == claimed_reward(old_rewards[k], island_id),
            forall|k: int| i <= k < rewards@.len() ==> #[trigger] rewards@[k] == old_rewards[k],
        decreases rewards@.len() - i,
    {
        let mut reward = rewards[i];
        if reward.treasure_island_id == island_id {
            if !reward.claimed {
                match reward.reward_type {
                    TreasureRewardType::Gold(amount) => {
                        *berries = berries.saturating_add(amount);
                    },
                    TreasureRewardType::Item(component) => {
                        items.push(component);
                    },
                    TreasureRewardType::Reroll => {
                        *berries = berries.saturating_add(2);
                    },
                    TreasureRewardType::Experience => {},
                }
            }
            reward.claimed = true;
            rewards.set(i, reward);
        }
        i = i + 1;
    }
    island.claimed = true;
    assert(rewards@ =~= Seq::new(old_rewards.len(), |k: int| claimed_reward(old_rewards[k], island_id)));
    Ok(items)
}

} // verus!
