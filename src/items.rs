use vstd::prelude::*;
use crate::types::{CompletedItem, ItemComponent};

verus! {

/// Additive stat deltas that an item grants. Fractional stats (crit chance,
/// crit damage, attack speed, hp regeneration) are held in hundredths:
/// `15` in `crit_chance` is a 0.15 chance.
#[derive(Clone, Copy, Debug, PartialEq, Eq, Structural)]
pub struct StatBonus {
    pub ad: u32,
    pub ap: u32,
    pub armor: u32,
    pub mr: u32,
    pub mana: u32,
    pub hp: u32,
    pub crit_chance: u32,
    pub crit_damage: u32,
    pub attack_speed: u32,
    pub hp_regen: u32,
}

impl StatBonus {
    /// A bonus that changes nothing.
    pub open spec fn zero_spec() -> StatBonus {
        StatBonus {
            ad: 0,
            ap: 0,
            armor: 0,
            mr: 0,
            mana: 0,
            hp: 0,
            crit_chance: 0,
            crit_damage: 0,
            attack_speed: 0,
            hp_regen: 0,
        }
    }

    /// A bonus that changes nothing.
    pub fn zero() -> (r: StatBonus)
        ensures
            r == StatBonus::zero_spec(),
    {
        StatBonus {
            ad: 0,
            ap: 0,
            armor: 0,
            mr: 0,
            mana: 0,
            hp: 0,
            crit_chance: 0,
            crit_damage: 0,
            attack_speed: 0,
            hp_regen: 0,
        }
    }
}

/// The completed item that two components combine into, whichever way round.
pub open spec fn combination(item1: ItemComponent, item2: ItemComponent) -> Option<CompletedItem> {
    match (item1, item2) {
        (ItemComponent::Cutlass, ItemComponent::SniperGoggles) | (ItemComponent::SniperGoggles, ItemComponent::Cutlass) => Some(CompletedItem::Yoru),
        (ItemComponent::Cutlass, ItemComponent::ShellDial) | (ItemComponent::ShellDial, ItemComponent::Cutlass) => Some(CompletedItem::Kabuto),
        (ItemComponent::Cutlass, ItemComponent::SeastoneFragment) | (ItemComponent::SeastoneFragment, ItemComponent::Cutlass) => Some(CompletedItem::Shusui),
        (ItemComponent::ToneDial, ItemComponent::ToneDial) => Some(CompletedItem::ClimaTact),
        (ItemComponent::ToneDial, ItemComponent::ShellDial) | (ItemComponent::ShellDial, ItemComponent::ToneDial) => Some(CompletedItem::ThunderTempo),
        (ItemComponent::ToneDial, ItemComponent::EnergyDrink) | (ItemComponent::EnergyDrink, ItemComponent::ToneDial) => Some(CompletedItem::MirageFlower),
        (ItemComponent::SeastoneFragment, ItemComponent::SeastoneFragment) => Some(CompletedItem::AdamWood),
        (ItemComponent::SeastoneFragment, ItemComponent::TidalCloak) | (ItemComponent::TidalCloak, ItemComponent::SeastoneFragment) => Some(CompletedItem::SeaKingScale),
        (ItemComponent::SeastoneFragment, ItemComponent::Meat) | (ItemComponent::Meat, ItemComponent::SeastoneFragment) => Some(CompletedItem::ThousandSunnyHull),
        (ItemComponent::EnergyDrink, ItemComponent::TidalCloak) | (ItemComponent::TidalCloak, ItemComponent::EnergyDrink) => Some(CompletedItem::VivrCard),
        (ItemComponent::SniperGoggles, ItemComponent::EnergyDrink) | (ItemComponent::EnergyDrink, ItemComponent::SniperGoggles) => Some(CompletedItem::LogPose),
        (ItemComponent::ToneDial, ItemComponent::SeastoneFragment) | (ItemComponent::SeastoneFragment, ItemComponent::ToneDial) => Some(CompletedItem::Poneglyph),
        (ItemComponent::Cutlass, ItemComponent::Meat) | (ItemComponent::Meat, ItemComponent::Cutlass) => Some(CompletedItem::GumGumFruit),
        (ItemComponent::Meat, ItemComponent::Meat) => Some(CompletedItem::GomuGomuNoMi),
        (ItemComponent::ToneDial, ItemComponent::Cutlass) | (ItemComponent::Cutlass, ItemComponent::ToneDial) => Some(CompletedItem::HakiMastery),
        _ => None,
    }
}

/// Looks up the fixed combination table, keyed by the unordered pair of components.
pub fn try_combine_items(item1: ItemComponent, item2: ItemComponent) -> (r: Option<CompletedItem>)
    ensures
        r == combination(item1, item2),
{
    match (item1, item2) {
        (ItemComponent::Cutlass, ItemComponent::SniperGoggles) | (ItemComponent::SniperGoggles, ItemComponent::Cutlass) => Some(CompletedItem::Yoru),
        (ItemComponent::Cutlass, ItemComponent::ShellDial) | (ItemComponent::ShellDial, ItemComponent::Cutlass) => Some(CompletedItem::Kabuto),
        (ItemComponent::Cutlass, ItemComponent::SeastoneFragment) | (ItemComponent::SeastoneFragment, ItemComponent::Cutlass) => Some(CompletedItem::Shusui),
        (ItemComponent::ToneDial, ItemComponent::ToneDial) => Some(CompletedItem::ClimaTact),
        (ItemComponent::ToneDial, ItemComponent::ShellDial) | (ItemComponent::ShellDial, ItemComponent::ToneDial) => Some(CompletedItem::ThunderTempo),
        (ItemComponent::ToneDial, ItemComponent::EnergyDrink) | (ItemComponent::EnergyDrink, ItemComponent::ToneDial) => Some(CompletedItem::MirageFlower),
        (ItemComponent::SeastoneFragment, ItemComponent::SeastoneFragment) => Some(CompletedItem::AdamWood),
        (ItemComponent::SeastoneFragment, ItemComponent::TidalCloak) | (ItemComponent::TidalCloak, ItemComponent::SeastoneFragment) => Some(CompletedItem::SeaKingScale),
        (ItemComponent::SeastoneFragment, ItemComponent::Meat) | (ItemComponent::Meat, ItemComponent::SeastoneFragment) => Some(CompletedItem::ThousandSunnyHull),
        (ItemComponent::EnergyDrink, ItemComponent::TidalCloak) | (ItemComponent::TidalCloak, ItemComponent::EnergyDrink) => Some(CompletedItem::VivrCard),
        (ItemComponent::SniperGoggles, ItemComponent::EnergyDrink) | (ItemComponent::EnergyDrink, ItemComponent::SniperGoggles) => Some(CompletedItem::LogPose),
        (ItemComponent::ToneDial, ItemComponent::SeastoneFragment) | (ItemComponent::SeastoneFragment, ItemComponent::ToneDial) => Some(CompletedItem::Poneglyph),
        (ItemComponent::Cutlass, ItemComponent::Meat) | (ItemComponent::Meat, ItemComponent::Cutlass) => Some(CompletedItem::GumGumFruit),
        (ItemComponent::Meat, ItemComponent::Meat) => Some(CompletedItem::GomuGomuNoMi),
        (ItemComponent::ToneDial, ItemComponent::Cutlass) | (ItemComponent::Cutlass, ItemComponent::ToneDial) => Some(CompletedItem::HakiMastery),
        _ => None,
    }
}

/// The combination table does not depend on the order of the two components.
pub proof fn lemma_combination_unordered(item1: ItemComponent, item2: ItemComponent)
    ensures
        combination(item1, item2) == combination(item2, item1),
{
}

/// Stat deltas of a component.
pub open spec fn component_bonus_spec(c: ItemComponent) -> StatBonus {
    match c {
        ItemComponent::Cutlass => StatBonus {
            ad: 10,
            ap: 0,
            armor: 0,
            mr: 0,
            mana: 0,
            hp: 0,
            crit_chance: 0,
            crit_damage: 0,
            attack_speed: 0,
            hp_regen: 0,
        },
        ItemComponent::SniperGoggles => StatBonus {
            ad: 0,
            ap: 0,
            armor: 0,
            mr: 0,
            mana: 0,
            hp: 0,
            crit_chance: 15,
            crit_damage: 0,
            attack_speed: 0,
            hp_regen: 0,
        },
        ItemComponent::ShellDial => StatBonus {
            ad: 0,
            ap: 0,
            armor: 0,
            mr: 0,
            mana: 0,
            hp: 0,
            crit_chance: 0,
            crit_damage: 0,
            attack_speed: 15,
            hp_regen: 0,
        },
        ItemComponent::ToneDial => StatBonus {
            ad: 0,
            ap: 15,
            armor: 0,
            mr: 0,
            mana: 0,
            hp: 0,
            crit_chance: 0,
            crit_damage: 0,
            attack_speed: 0,
            hp_regen: 0,
        },
        ItemComponent::SeastoneFragment => StatBonus {
            ad: 0,
            ap: 0,
            armor: 10,
            mr: 0,
            mana: 0,
            hp: 0,
            crit_chance: 0,
            crit_damage: 0,
            attack_speed: 0,
            hp_regen: 0,
        },
        ItemComponent::TidalCloak => StatBonus {
            ad: 0,
            ap: 0,
            armor: 0,
            mr: 10,
            mana: 0,
            hp: 0,
            crit_chance: 0,
            crit_damage: 0,
            attack_speed: 0,
            hp_regen: 0,
        },
        ItemComponent::EnergyDrink => StatBonus {
            ad: 0,
            ap: 0,
            armor: 0,
            mr: 0,
            mana: 20,
            hp: 0,
            crit_chance: 0,
            crit_damage: 0,
            attack_speed: 0,
            hp_regen: 0,
        },
        ItemComponent::Meat => StatBonus {
            ad: 0,
            ap: 0,
            armor: 0,
            mr: 0,
            mana: 0,
            hp: 50,
            crit_chance: 0,
            crit_damage: 0,
            attack_speed: 0,
            hp_regen: 0,
        },
    }
}

/// Stat deltas of a component.
pub fn component_bonus(c: ItemComponent) -> (r: StatBonus)
    ensures
        r == component_bonus_spec(c),
{
    match c {
        ItemComponent::Cutlass => StatBonus {
            ad: 10,
            ap: 0,
            armor: 0,
            mr: 0,
            mana: 0,
            hp: 0,
            crit_chance: 0,
            crit_damage: 0,
            attack_speed: 0,
            hp_regen: 0,
        },
        ItemComponent::SniperGoggles => StatBonus {
            ad: 0,
            ap: 0,
            armor: 0,
            mr: 0,
            mana: 0,
            hp: 0,
            crit_chance: 15,
            crit_damage: 0,
            attack_speed: 0,
            hp_regen: 0,
        },
        ItemComponent::ShellDial => StatBonus {
            ad: 0,
            ap: 0,
            armor: 0,
            mr: 0,
            mana: 0,
            hp: 0,
            crit_chance: 0,
            crit_damage: 0,
            attack_speed: 15,
            hp_regen: 0,
        },
        ItemComponent::ToneDial => StatBonus {
            ad: 0,
            ap: 15,
            armor: 0,
            mr: 0,
            mana: 0,
            hp: 0,
            crit_chance: 0,
            crit_damage: 0,
            attack_speed: 0,
            hp_regen: 0,
        },
        ItemComponent::SeastoneFragment => StatBonus {
            ad: 0,
            ap: 0,
            armor: 10,
            mr: 0,
            mana: 0,
            hp: 0,
            crit_chance: 0,
            crit_damage: 0,
            attack_speed: 0,
            hp_regen: 0,
        },
        ItemComponent::TidalCloak => StatBonus {
            ad: 0,
            ap: 0,
            armor: 0,
            mr: 10,
            mana: 0,
            hp: 0,
            crit_chance: 0,
            crit_damage: 0,
            attack_speed: 0,
            hp_regen: 0,
        },
        ItemComponent::EnergyDrink => StatBonus {
            ad: 0,
            ap: 0,
            armor: 0,
            mr: 0,
            mana: 20,
            hp: 0,
            crit_chance: 0,
            crit_damage: 0,
            attack_speed: 0,
            hp_regen: 0,
        },
        ItemComponent::Meat => StatBonus {
            ad: 0,
            ap: 0,
            armor: 0,
            mr: 0,
            mana: 0,
            hp: 50,
            crit_chance: 0,
            crit_damage: 0,
            attack_speed: 0,
            hp_regen: 0,
        },
    }
}

/// Additive stat deltas of a completed item.
pub open spec fn completed_bonus_spec(c: CompletedItem) -> StatBonus {
    match c {
        CompletedItem::Yoru => StatBonus {
            ad: 10,
            ap: 0,
            armor: 0,
            mr: 0,
            mana: 0,
            hp: 0,
            crit_chance: 15,
            crit_damage: 75,
            attack_speed: 0,
            hp_regen: 0,
        },
        CompletedItem::Kabuto => StatBonus {
            ad: 10,
            ap: 0,
            armor: 0,
            mr: 0,
            mana: 0,
            hp: 0,
            crit_chance: 0,
            crit_damage: 0,
            attack_speed: 15,
            hp_regen: 0,
        },
        CompletedItem::Shusui => StatBonus {
            ad: 20,
            ap: 0,
            armor: 10,
            mr: 0,
            mana: 0,
            hp: 0,
            crit_chance: 0,
            crit_damage: 0,
            attack_speed: 0,
            hp_regen: 0,
        },
        CompletedItem::ClimaTact => StatBonus {
            ad: 0,
            ap: 30,
            armor: 0,
            mr: 0,
            mana: 0,
            hp: 0,
            crit_chance: 0,
            crit_damage: 0,
            attack_speed: 0,
            hp_regen: 0,
        },
        CompletedItem::ThunderTempo => StatBonus {
            ad: 0,
            ap: 15,
            armor: 0,
            mr: 0,
            mana: 0,
            hp: 0,
            crit_chance: 0,
            crit_damage: 0,
            attack_speed: 15,
            hp_regen: 0,
        },
        CompletedItem::MirageFlower => StatBonus {
            ad: 0,
            ap: 15,
            armor: 0,
            mr: 0,
            mana: 20,
            hp: 0,
            crit_chance: 0,
            crit_damage: 0,
            attack_speed: 0,
            hp_regen: 0,
        },
        CompletedItem::AdamWood => StatBonus {
            ad: 0,
            ap: 0,
            armor: 30,
            mr: 0,
            mana: 0,
            hp: 0,
            crit_chance: 0,
            crit_damage: 0,
            attack_speed: 0,
            hp_regen: 0,
        },
        CompletedItem::SeaKingScale => StatBonus {
            ad: 0,
            ap: 0,
            armor: 10,
            mr: 10,
            mana: 0,
            hp: 0,
            crit_chance: 0,
            crit_damage: 0,
            attack_speed: 0,
            hp_regen: 0,
        },
        CompletedItem::ThousandSunnyHull => StatBonus {
            ad: 0,
            ap: 0,
            armor: 10,
            mr: 0,
            mana: 0,
            hp: 50,
            crit_chance: 0,
            crit_damage: 0,
            attack_speed: 0,
            hp_regen: 0,
        },
        CompletedItem::VivrCard => StatBonus {
            ad: 0,
            ap: 0,
            armor: 0,
            mr: 10,
            mana: 20,
            hp: 0,
            crit_chance: 0,
            crit_damage: 0,
            attack_speed: 0,
            hp_regen: 0,
        },
        CompletedItem::LogPose => StatBonus {
            ad: 0,
            ap: 0,
            armor: 0,
            mr: 0,
            mana: 20,
            hp: 0,
            crit_chance: 15,
            crit_damage: 0,
            attack_speed: 0,
            hp_regen: 0,
        },
        CompletedItem::Poneglyph => StatBonus {
            ad: 0,
            ap: 15,
            armor: 10,
            mr: 0,
            mana: 0,
            hp: 0,
            crit_chance: 0,
            crit_damage: 0,
            attack_speed: 0,
            hp_regen: 0,
        },
        CompletedItem::GumGumFruit => StatBonus {
            ad: 10,
            ap: 0,
            armor: 0,
            mr: 0,
            mana: 0,
            hp: 50,
            crit_chance: 0,
            crit_damage: 0,
            attack_speed: 0,
            hp_regen: 0,
        },
        CompletedItem::GomuGomuNoMi => StatBonus {
            ad: 0,
            ap: 0,
            armor: 0,
            mr: 0,
            mana: 0,
            hp: 100,
            crit_chance: 0,
            crit_damage: 0,
            attack_speed: 0,
            hp_regen: 500,
        },
        CompletedItem::HakiMastery => StatBonus {
            ad: 10,
            ap: 15,
            armor: 0,
            mr: 0,
            mana: 0,
            hp: 0,
            crit_chance: 0,
            crit_damage: 0,
            attack_speed: 0,
            hp_regen: 0,
        },
    }
}

/// Additive stat deltas of a completed item.
pub fn completed_bonus(c: CompletedItem) -> (r: StatBonus)
    ensures
        r == completed_bonus_spec(c),
{
    match c {
        CompletedItem::Yoru => StatBonus {
            ad: 10,
            ap: 0,
            armor: 0,
            mr: 0,
            mana: 0,
            hp: 0,
            crit_chance: 15,
            crit_damage: 75,
            attack_speed: 0,
            hp_regen: 0,
        },
        CompletedItem::Kabuto => StatBonus {
            ad: 10,
            ap: 0,
            armor: 0,
            mr: 0,
            mana: 0,
            hp: 0,
            crit_chance: 0,
            crit_damage: 0,
            attack_speed: 15,
            hp_regen: 0,
        },
        CompletedItem::Shusui => StatBonus {
            ad: 20,
            ap: 0,
            armor: 10,
            mr: 0,
            mana: 0,
            hp: 0,
            crit_chance: 0,
            crit_damage: 0,
            attack_speed: 0,
            hp_regen: 0,
        },
        CompletedItem::ClimaTact => StatBonus {
            ad: 0,
            ap: 30,
            armor: 0,
            mr: 0,
            mana: 0,
            hp: 0,
            crit_chance: 0,
            crit_damage: 0,
            attack_speed: 0,
            hp_regen: 0,
        },
        CompletedItem::ThunderTempo => StatBonus {
            ad: 0,
            ap: 15,
            armor: 0,
            mr: 0,
            mana: 0,
            hp: 0,
            crit_chance: 0,
            crit_damage: 0,
            attack_speed: 15,
            hp_regen: 0,
        },
        CompletedItem::MirageFlower => StatBonus {
            ad: 0,
            ap: 15,
            armor: 0,
            mr: 0,
            mana: 20,
            hp: 0,
            crit_chance: 0,
            crit_damage: 0,
            attack_speed: 0,
            hp_regen: 0,
        },
        CompletedItem::AdamWood => StatBonus {
            ad: 0,
            ap: 0,
            armor: 30,
            mr: 0,
            mana: 0,
            hp: 0,
            crit_chance: 0,
            crit_damage: 0,
            attack_speed: 0,
            hp_regen: 0,
        },
        CompletedItem::SeaKingScale => StatBonus {
            ad: 0,
            ap: 0,
            armor: 10,
            mr: 10,
            mana: 0,
            hp: 0,
            crit_chance: 0,
            crit_damage: 0,
            attack_speed: 0,
            hp_regen: 0,
        },
        CompletedItem::ThousandSunnyHull => StatBonus {
            ad: 0,
            ap: 0,
            armor: 10,
            mr: 0,
            mana: 0,
            hp: 50,
            crit_chance: 0,
            crit_damage: 0,
            attack_speed: 0,
            hp_regen: 0,
        },
        CompletedItem::VivrCard => StatBonus {
            ad: 0,
            ap: 0,
            armor: 0,
            mr: 10,
            mana: 20,
            hp: 0,
            crit_chance: 0,
            crit_damage: 0,
            attack_speed: 0,
            hp_regen: 0,
        },
        CompletedItem::LogPose => StatBonus {
            ad: 0,
            ap: 0,
            armor: 0,
            mr: 0,
            mana: 20,
            hp: 0,
            crit_chance: 15,
            crit_damage: 0,
            attack_speed: 0,
            hp_regen: 0,
        },
        CompletedItem::Poneglyph => StatBonus {
            ad: 0,
            ap: 15,
            armor: 10,
            mr: 0,
            mana: 0,
            hp: 0,
            crit_chance: 0,
            crit_damage: 0,
            attack_speed: 0,
            hp_regen: 0,
        },
        CompletedItem::GumGumFruit => StatBonus {
            ad: 10,
            ap: 0,
            armor: 0,
            mr: 0,
            mana: 0,
            hp: 50,
            crit_chance: 0,
            crit_damage: 0,
            attack_speed: 0,
            hp_regen: 0,
        },
        CompletedItem::GomuGomuNoMi => StatBonus {
            ad: 0,
            ap: 0,
            armor: 0,
            mr: 0,
            mana: 0,
            hp: 100,
            crit_chance: 0,
            crit_damage: 0,
            attack_speed: 0,
            hp_regen: 500,
        },
        CompletedItem::HakiMastery => StatBonus {
            ad: 10,
            ap: 15,
            armor: 0,
            mr: 0,
            mana: 0,
            hp: 0,
            crit_chance: 0,
            crit_damage: 0,
            attack_speed: 0,
            hp_regen: 0,
        },
    }
}

/// Whether the completed item's attacks splash onto nearby enemies.
pub open spec fn completed_splash_spec(c: CompletedItem) -> bool {
    c == CompletedItem::Kabuto
}

/// Armor removed from the target by the completed item's attacks.
pub open spec fn completed_armor_shred_spec(c: CompletedItem) -> u32 {
    if c == CompletedItem::Shusui { 5 } else { 0 }
}

/// One row of the component stat table.
#[derive(Clone, Copy, Debug, PartialEq, Eq, Structural)]
pub struct ItemComponentStats {
    pub component: ItemComponent,
    pub bonus: StatBonus,
}

/// One row of the completed-item stat table. Besides its additive bonus a
/// completed item may carry properties that do not add up.
#[derive(Clone, Copy, Debug, PartialEq, Eq, Structural)]
pub struct CompletedItemStats {
    pub item: CompletedItem,
    pub bonus: StatBonus,
    pub has_splash: bool,
    pub armor_shred: u32,
}

/// One row of the combination recipe table.
#[derive(Clone, Copy, Debug, PartialEq, Eq, Structural)]
pub struct ItemCombinationRecipe {
    pub id: u64,
    pub component1: ItemComponent,
    pub component2: ItemComponent,
    pub result: CompletedItem,
}

/// Every component, in table order.
pub open spec fn all_components() -> Seq<ItemComponent> {
    seq![ItemComponent::Cutlass, ItemComponent::SniperGoggles, ItemComponent::ShellDial, ItemComponent::ToneDial, ItemComponent::SeastoneFragment, ItemComponent::TidalCloak, ItemComponent::EnergyDrink, ItemComponent::Meat]
}

/// Every completed item, in table order.
pub open spec fn all_completed_items() -> Seq<CompletedItem> {
    seq![CompletedItem::Yoru, CompletedItem::Kabuto, CompletedItem::Shusui, CompletedItem::ClimaTact, CompletedItem::ThunderTempo, CompletedItem::MirageFlower, CompletedItem::AdamWood, CompletedItem::SeaKingScale, CompletedItem::ThousandSunnyHull, CompletedItem::VivrCard, CompletedItem::LogPose, CompletedItem::Poneglyph, CompletedItem::GumGumFruit, CompletedItem::GomuGomuNoMi, CompletedItem::HakiMastery]
}

/// The rows the component stat table starts with: one per component.
pub fn init_item_component_stats() -> (r: Vec<ItemComponentStats>)
    ensures
        r@.len() == all_components().len(),
        forall|i: int|
            0 <= i < r@.len() ==> r@[i] == (ItemComponentStats {
                component: all_components()[i],
                bonus: component_bonus_spec(all_components()[i]),
            }),
{
    let mut r: Vec<ItemComponentStats> = Vec::new();
    r.push(ItemComponentStats { component: ItemComponent::Cutlass, bonus: component_bonus(ItemComponent::Cutlass) });
    r.push(ItemComponentStats { component: ItemComponent::SniperGoggles, bonus: component_bonus(ItemComponent::SniperGoggles) });
    r.push(ItemComponentStats { component: ItemComponent::ShellDial, bonus: component_bonus(ItemComponent::ShellDial) });
    r.push(ItemComponentStats { component: ItemComponent::ToneDial, bonus: component_bonus(ItemComponent::ToneDial) });
    r.push(ItemComponentStats { component: ItemComponent::SeastoneFragment, bonus: component_bonus(ItemComponent::SeastoneFragment) });
    r.push(ItemComponentStats { component: ItemComponent::TidalCloak, bonus: component_bonus(ItemComponent::TidalCloak) });
    r.push(ItemComponentStats { component: ItemComponent::EnergyDrink, bonus: component_bonus(ItemComponent::EnergyDrink) });
    r.push(ItemComponentStats { component: ItemComponent::Meat, bonus: component_bonus(ItemComponent::Meat) });
    r
}

/// The rows the completed-item stat table starts with: one per completed item.
pub fn init_completed_item_stats() -> (r: Vec<CompletedItemStats>)
    ensures
        r@.len() == all_completed_items().len(),
        forall|i: int|
            0 <= i < r@.len() ==> r@[i] == (CompletedItemStats {
                item: all_completed_items()[i],
                bonus: completed_bonus_spec(all_completed_items()[i]),
                has_splash: completed_splash_spec(all_completed_items()[i]),
                armor_shred: completed_armor_shred_spec(all_completed_items()[i]),
            }),
{
    let mut r: Vec<CompletedItemStats> = Vec::new();
    r.push(CompletedItemStats {
        item: CompletedItem::Yoru,
        bonus: completed_bonus(CompletedItem::Yoru),
        has_splash: false,
        armor_shred: 0,
    });
    r.push(CompletedItemStats {
        item: CompletedItem::Kabuto,
        bonus: completed_bonus(CompletedItem::Kabuto),
        has_splash: true,
        armor_shred: 0,
    });
    r.push(CompletedItemStats {
        item: CompletedItem::Shusui,
        bonus: completed_bonus(CompletedItem::Shusui),
        has_splash: false,
        armor_shred: 5,
    });
    r.push(CompletedItemStats {
        item: CompletedItem::ClimaTact,
        bonus: completed_bonus(CompletedItem::ClimaTact),
        has_splash: false,
        armor_shred: 0,
    });
    r.push(CompletedItemStats {
        item: CompletedItem::ThunderTempo,
        bonus: completed_bonus(CompletedItem::ThunderTempo),
        has_splash: false,
        armor_shred: 0,
    });
    r.push(CompletedItemStats {
        item: CompletedItem::MirageFlower,
        bonus: completed_bonus(CompletedItem::MirageFlower),
        has_splash: false,
        armor_shred: 0,
    });
    r.push(CompletedItemStats {
        item: CompletedItem::AdamWood,
        bonus: completed_bonus(CompletedItem::AdamWood),
        has_splash: false,
        armor_shred: 0,
    });
    r.push(CompletedItemStats {
        item: CompletedItem::SeaKingScale,
        bonus: completed_bonus(CompletedItem::SeaKingScale),
        has_splash: false,
        armor_shred: 0,
    });
    r.push(CompletedItemStats {
        item: CompletedItem::ThousandSunnyHull,
        bonus: completed_bonus(CompletedItem::ThousandSunnyHull),
        has_splash: false,
        armor_shred: 0,
    });
    r.push(CompletedItemStats {
        item: CompletedItem::VivrCard,
        bonus: completed_bonus(CompletedItem::VivrCard),
        has_splash: false,
        armor_shred: 0,
    });
    r.push(CompletedItemStats {
        item: CompletedItem::LogPose,
        bonus: completed_bonus(CompletedItem::LogPose),
        has_splash: false,
        armor_shred: 0,
    });
    r.push(CompletedItemStats {
        item: CompletedItem::Poneglyph,
        bonus: completed_bonus(CompletedItem::Poneglyph),
        has_splash: false,
        armor_shred: 0,
    });
    r.push(CompletedItemStats {
        item: CompletedItem::GumGumFruit,
        bonus: completed_bonus(CompletedItem::GumGumFruit),
        has_splash: false,
        armor_shred: 0,
    });
    r.push(CompletedItemStats {
        item: CompletedItem::GomuGomuNoMi,
        bonus: completed_bonus(CompletedItem::GomuGomuNoMi),
        has_splash: false,
        armor_shred: 0,
    });
    r.push(CompletedItemStats {
        item: CompletedItem::HakiMastery,
        bonus: completed_bonus(CompletedItem::HakiMastery),
        has_splash: false,
        armor_shred: 0,
    });
    r
}

/// The rows the recipe table starts with; each agrees with the fixed
/// combination table, and every completed item has exactly one.
pub fn init_item_combination_recipes() -> (r: Vec<ItemCombinationRecipe>)
    ensures
        r@.len() == all_completed_items().len(),
        forall|i: int|
            0 <= i < r@.len() ==> {
                &&& r@[i].id == 0
                &&& r@[i].result == all_completed_items()[i]
                &&& combination(r@[i].component1, r@[i].component2) == Some(r@[i].result)
            },
{
    let mut r: Vec<ItemCombinationRecipe> = Vec::new();
    r.push(ItemCombinationRecipe { id: 0, component1: ItemComponent::Cutlass, component2: ItemComponent::SniperGoggles, result: CompletedItem::Yoru });
    r.push(ItemCombinationRecipe { id: 0, component1: ItemComponent::Cutlass, component2: ItemComponent::ShellDial, result: CompletedItem::Kabuto });
    r.push(ItemCombinationRecipe { id: 0, component1: ItemComponent::Cutlass, component2: ItemComponent::SeastoneFragment, result: CompletedItem::Shusui });
    r.push(ItemCombinationRecipe { id: 0, component1: ItemComponent::ToneDial, component2: ItemComponent::ToneDial, result: CompletedItem::ClimaTact });
    r.push(ItemCombinationRecipe { id: 0, component1: ItemComponent::ToneDial, component2: ItemComponent::ShellDial, result: CompletedItem::ThunderTempo });
    r.push(ItemCombinationRecipe { id: 0, component1: ItemComponent::ToneDial, component2: ItemComponent::EnergyDrink, result: CompletedItem::MirageFlower });
    r.push(ItemCombinationRecipe { id: 0, component1: ItemComponent::SeastoneFragment, component2: ItemComponent::SeastoneFragment, result: CompletedItem::AdamWood });
    r.push(ItemCombinationRecipe { id: 0, component1: ItemComponent::SeastoneFragment, component2: ItemComponent::TidalCloak, result: CompletedItem::SeaKingScale });
    r.push(ItemCombinationRecipe { id: 0, component1: ItemComponent::SeastoneFragment, component2: ItemComponent::Meat, result: CompletedItem::ThousandSunnyHull });
    r.push(ItemCombinationRecipe { id: 0, component1: ItemComponent::EnergyDrink, component2: ItemComponent::TidalCloak, result: CompletedItem::VivrCard });
    r.push(ItemCombinationRecipe { id: 0, component1: ItemComponent::SniperGoggles, component2: ItemComponent::EnergyDrink, result: CompletedItem::LogPose });
    r.push(ItemCombinationRecipe { id: 0, component1: ItemComponent::ToneDial, component2: ItemComponent::SeastoneFragment, result: CompletedItem::Poneglyph });
    r.push(ItemCombinationRecipe { id: 0, component1: ItemComponent::Cutlass, component2: ItemComponent::Meat, result: CompletedItem::GumGumFruit });
    r.push(ItemCombinationRecipe { id: 0, component1: ItemComponent::Meat, component2: ItemComponent::Meat, result: CompletedItem::GomuGomuNoMi });
    r.push(ItemCombinationRecipe { id: 0, component1: ItemComponent::ToneDial, component2: ItemComponent::Cutlass, result: CompletedItem::HakiMastery });
    r
}

} // verus!
