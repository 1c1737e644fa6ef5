use vstd::prelude::*;

verus! {

/// The ship a player sails with; decided by the dominant crew trait.
#[derive(Clone, Copy, Debug, PartialEq, Eq, Structural)]
pub enum ShipType {
    Raft,
    RedForce,
    ThousandSunny,
    Naglfar,
    SaberOfXebec,
    PolarTang,
    BigTopBlaster,
    MobyDick,
    QueenMama,
}

impl ShipType {
    pub open spec fn asset_filename_spec(self) -> &'static str {
        match self {
            ShipType::Raft => "Raft.png",
            ShipType::RedForce => "RedForce.png",
            ShipType::ThousandSunny => "Sunny.png",
            ShipType::Naglfar => "Naglfar.png",
            ShipType::SaberOfXebec => "SaberOfXebec.png",
            ShipType::PolarTang => "PolarTang.png",
            ShipType::BigTopBlaster => "BigTopBlaster.png",
            ShipType::MobyDick => "MobyDick.png",
            ShipType::QueenMama => "QueenMama.png",
        }
    }

    /// Asset file that pictures this ship.
    pub fn asset_filename(&self) -> (r: &'static str)
        ensures
            r == self.asset_filename_spec(),
    {
        match self {
            ShipType::Raft => "Raft.png",
            ShipType::RedForce => "RedForce.png",
            ShipType::ThousandSunny => "Sunny.png",
            ShipType::Naglfar => "Naglfar.png",
            ShipType::SaberOfXebec => "SaberOfXebec.png",
            ShipType::PolarTang => "PolarTang.png",
            ShipType::BigTopBlaster => "BigTopBlaster.png",
            ShipType::MobyDick => "MobyDick.png",
            ShipType::QueenMama => "QueenMama.png",
        }
    }

    pub open spec fn display_name_spec(self) -> &'static str {
        match self {
            ShipType::Raft => "Raft",
            ShipType::RedForce => "Red Force",
            ShipType::ThousandSunny => "Thousand Sunny",
            ShipType::Naglfar => "Naglfar",
            ShipType::SaberOfXebec => "Saber Of Xebec",
            ShipType::PolarTang => "Polar Tang",
            ShipType::BigTopBlaster => "Big Top Blaster",
            ShipType::MobyDick => "Moby Dick",
            ShipType::QueenMama => "Queen Mama",
        }
    }

    /// Name of this ship as players read it.
    pub fn display_name(&self) -> (r: &'static str)
        ensures
            r == self.display_name_spec(),
    {
        match self {
            ShipType::Raft => "Raft",
            ShipType::RedForce => "Red Force",
            ShipType::ThousandSunny => "Thousand Sunny",
            ShipType::Naglfar => "Naglfar",
            ShipType::SaberOfXebec => "Saber Of Xebec",
            ShipType::PolarTang => "Polar Tang",
            ShipType::BigTopBlaster => "Big Top Blaster",
            ShipType::MobyDick => "Moby Dick",
            ShipType::QueenMama => "Queen Mama",
        }
    }
}

/// Rarity tier of a crew member.
#[derive(Clone, Copy, Debug, PartialEq, Eq, Structural)]
pub enum CrewRarity {
    Common,
    Uncommon,
    Rare,
    Epic,
    Legendary,
}

/// A trait carried by a crew member: a faction or a fighting style.
#[derive(Clone, Copy, Debug, PartialEq, Eq, Structural, Hash)]
pub enum CrewTrait {
    StrawHat,
    Revolutionary,
    RedHairPirates,
    Giants,
    HolyKnights,
    Gorosei,
    BlackbearedPirates,
    WhitebearedPirates,
    BigMomPirates,
    HeartPirates,
    CrossGuildPirates,
    Logia,
    Paramecia,
    Zoan,
    Swordsman,
    Brawler,
    Sniper,
    Emperor,
}

impl CrewTrait {
    pub open spec fn ship_trait_spec(self) -> Option<ShipType> {
        match self {
            CrewTrait::StrawHat => Some(ShipType::ThousandSunny),
            CrewTrait::Revolutionary => None,
            CrewTrait::RedHairPirates => Some(ShipType::RedForce),
            CrewTrait::Giants => Some(ShipType::Naglfar),
            CrewTrait::HolyKnights => None,
            CrewTrait::Gorosei => None,
            CrewTrait::BlackbearedPirates => Some(ShipType::SaberOfXebec),
            CrewTrait::WhitebearedPirates => Some(ShipType::MobyDick),
            CrewTrait::BigMomPirates => Some(ShipType::QueenMama),
            CrewTrait::HeartPirates => Some(ShipType::PolarTang),
            CrewTrait::CrossGuildPirates => Some(ShipType::BigTopBlaster),
            CrewTrait::Logia => None,
            CrewTrait::Paramecia => None,
            CrewTrait::Zoan => None,
            CrewTrait::Swordsman => None,
            CrewTrait::Brawler => None,
            CrewTrait::Sniper => None,
            CrewTrait::Emperor => None,
        }
    }

    /// The ship that this trait stands for, if it is a faction with a ship.
    pub fn ship_trait(self) -> (r: Option<ShipType>)
        ensures
            r == self.ship_trait_spec(),
    {
        match self {
            CrewTrait::StrawHat => Some(ShipType::ThousandSunny),
            CrewTrait::Revolutionary => None,
            CrewTrait::RedHairPirates => Some(ShipType::RedForce),
            CrewTrait::Giants => Some(ShipType::Naglfar),
            CrewTrait::HolyKnights => None,
            CrewTrait::Gorosei => None,
            CrewTrait::BlackbearedPirates => Some(ShipType::SaberOfXebec),
            CrewTrait::WhitebearedPirates => Some(ShipType::MobyDick),
            CrewTrait::BigMomPirates => Some(ShipType::QueenMama),
            CrewTrait::HeartPirates => Some(ShipType::PolarTang),
            CrewTrait::CrossGuildPirates => Some(ShipType::BigTopBlaster),
            CrewTrait::Logia => None,
            CrewTrait::Paramecia => None,
            CrewTrait::Zoan => None,
            CrewTrait::Swordsman => None,
            CrewTrait::Brawler => None,
            CrewTrait::Sniper => None,
            CrewTrait::Emperor => None,
        }
    }

    /// Whether this trait decides a ship.
    pub fn is_ship_defining(self) -> (r: bool)
        ensures
            r == self.ship_trait_spec().is_some(),
    {
        self.ship_trait().is_some()
    }
}

/// Life-cycle status of a battle.
#[derive(Clone, Copy, Debug, PartialEq, Eq, Structural)]
pub enum BattleStatus {
    WaitingForOpponent,
    InProgress,
    Finished,
}

/// A basic item; two of them may combine into a completed item.
#[derive(Clone, Copy, Debug, PartialEq, Eq, Structural)]
pub enum ItemComponent {
    Cutlass,
    SniperGoggles,
    ShellDial,
    ToneDial,
    SeastoneFragment,
    TidalCloak,
    EnergyDrink,
    Meat,
}

impl ItemComponent {
    pub open spec fn debug_name_spec(self) -> &'static str {
        match self {
            ItemComponent::Cutlass => "Cutlass",
            ItemComponent::SniperGoggles => "SniperGoggles",
            ItemComponent::ShellDial => "ShellDial",
            ItemComponent::ToneDial => "ToneDial",
            ItemComponent::SeastoneFragment => "SeastoneFragment",
            ItemComponent::TidalCloak => "TidalCloak",
            ItemComponent::EnergyDrink => "EnergyDrink",
            ItemComponent::Meat => "Meat",
        }
    }

    /// The variant's identifier, as debug output writes it.
    pub fn debug_name(&self) -> (r: &'static str)
        ensures
            r == self.debug_name_spec(),
    {
        match self {
            ItemComponent::Cutlass => "Cutlass",
            ItemComponent::SniperGoggles => "SniperGoggles",
            ItemComponent::ShellDial => "ShellDial",
            ItemComponent::ToneDial => "ToneDial",
            ItemComponent::SeastoneFragment => "SeastoneFragment",
            ItemComponent::TidalCloak => "TidalCloak",
            ItemComponent::EnergyDrink => "EnergyDrink",
            ItemComponent::Meat => "Meat",
        }
    }
}

/// An item made of two components.
#[derive(Clone, Copy, Debug, PartialEq, Eq, Structural)]
pub enum CompletedItem {
    Yoru,
    Kabuto,
    Shusui,
    ClimaTact,
    ThunderTempo,
    MirageFlower,
    AdamWood,
    SeaKingScale,
    ThousandSunnyHull,
    VivrCard,
    LogPose,
    Poneglyph,
    GumGumFruit,
    GomuGomuNoMi,
    HakiMastery,
}

/// An item as it is held or equipped: a component or a completed item.
#[derive(Clone, Copy, Debug, PartialEq, Eq, Structural)]
pub enum Item {
    Component(ItemComponent),
    Completed(CompletedItem),
}

impl Item {
    /// Whether the item is a component (not a completed item).
    pub fn is_component(&self) -> (r: bool)
        ensures
            r == (*self is Component),
    {
        match self {
            Item::Component(_) => true,
            Item::Completed(_) => false,
        }
    }

    pub open spec fn name_spec(self) -> &'static str {
        match self {
            Item::Component(ItemComponent::Cutlass) => "Cutlass",
            Item::Component(ItemComponent::SniperGoggles) => "Sniper Goggles",
            Item::Component(ItemComponent::ShellDial) => "Shell Dial",
            Item::Component(ItemComponent::ToneDial) => "Tone Dial",
            Item::Component(ItemComponent::SeastoneFragment) => "Seastone Fragment",
            Item::Component(ItemComponent::TidalCloak) => "Tidal Cloak",
            Item::Component(ItemComponent::EnergyDrink) => "Energy Drink",
            Item::Component(ItemComponent::Meat) => "Meat",
            Item::Completed(CompletedItem::Yoru) => "Yoru",
            Item::Completed(CompletedItem::Kabuto) => "Kabuto",
            Item::Completed(CompletedItem::Shusui) => "Shusui",
            Item::Completed(CompletedItem::ClimaTact) => "Clima-Tact",
            Item::Completed(CompletedItem::ThunderTempo) => "Thunder Tempo",
            Item::Completed(CompletedItem::MirageFlower) => "Mirage Flower",
            Item::Completed(CompletedItem::AdamWood) => "Adam Wood",
            Item::Completed(CompletedItem::SeaKingScale) => "Sea King Scale",
            Item::Completed(CompletedItem::ThousandSunnyHull) => "Thousand Sunny Hull",
            Item::Completed(CompletedItem::VivrCard) => "Vivre Card",
            Item::Completed(CompletedItem::LogPose) => "Log Pose",
            Item::Completed(CompletedItem::Poneglyph) => "Poneglyph",
            Item::Completed(CompletedItem::GumGumFruit) => "Gum-Gum Fruit",
            Item::Completed(CompletedItem::GomuGomuNoMi) => "Gomu Gomu no Mi",
            Item::Completed(CompletedItem::HakiMastery) => "Haki Mastery",
        }
    }

    /// Display name of the item.
    pub fn get_name(&self) -> (r: &'static str)
        ensures
            r == self.name_spec(),
    {
        match self {
            Item::Component(ItemComponent::Cutlass) => "Cutlass",
            Item::Component(ItemComponent::SniperGoggles) => "Sniper Goggles",
            Item::Component(ItemComponent::ShellDial) => "Shell Dial",
            Item::Component(ItemComponent::ToneDial) => "Tone Dial",
            Item::Component(ItemComponent::SeastoneFragment) => "Seastone Fragment",
            Item::Component(ItemComponent::TidalCloak) => "Tidal Cloak",
            Item::Component(ItemComponent::EnergyDrink) => "Energy Drink",
            Item::Component(ItemComponent::Meat) => "Meat",
            Item::Completed(CompletedItem::Yoru) => "Yoru",
            Item::Completed(CompletedItem::Kabuto) => "Kabuto",
            Item::Completed(CompletedItem::Shusui) => "Shusui",
            Item::Completed(CompletedItem::ClimaTact) => "Clima-Tact",
            Item::Completed(CompletedItem::ThunderTempo) => "Thunder Tempo",
            Item::Completed(CompletedItem::MirageFlower) => "Mirage Flower",
            Item::Completed(CompletedItem::AdamWood) => "Adam Wood",
            Item::Completed(CompletedItem::SeaKingScale) => "Sea King Scale",
            Item::Completed(CompletedItem::ThousandSunnyHull) => "Thousand Sunny Hull",
            Item::Completed(CompletedItem::VivrCard) => "Vivre Card",
            Item::Completed(CompletedItem::LogPose) => "Log Pose",
            Item::Completed(CompletedItem::Poneglyph) => "Poneglyph",
            Item::Completed(CompletedItem::GumGumFruit) => "Gum-Gum Fruit",
            Item::Completed(CompletedItem::GomuGomuNoMi) => "Gomu Gomu no Mi",
            Item::Completed(CompletedItem::HakiMastery) => "Haki Mastery",
        }
    }

    pub open spec fn description_spec(self) -> &'static str {
        match self {
            Item::Component(ItemComponent::Cutlass) => "+AD (Attack Damage)",
            Item::Component(ItemComponent::SniperGoggles) => "+Crit Chance",
            Item::Component(ItemComponent::ShellDial) => "+AS (Attack Speed)",
            Item::Component(ItemComponent::ToneDial) => "+AP (Ability Power)",
            Item::Component(ItemComponent::SeastoneFragment) => "+Armor",
            Item::Component(ItemComponent::TidalCloak) => "+MR (Magic Resist)",
            Item::Component(ItemComponent::EnergyDrink) => "+Starting Mana",
            Item::Component(ItemComponent::Meat) => "+HP",
            Item::Completed(CompletedItem::Yoru) => "Cutlass + Sniper Goggles: +75% crit damage",
            Item::Completed(CompletedItem::Kabuto) => "Cutlass + Shell Dial: Attacks deal splash damage",
            Item::Completed(CompletedItem::Shusui) => "Cutlass + Seastone Fragment: Bonus AD + armor shred",
            Item::Completed(CompletedItem::ClimaTact) => "Tone Dial + Tone Dial: Doubles AP",
            Item::Completed(CompletedItem::ThunderTempo) => "Tone Dial + Shell Dial: AP + attack speed",
            Item::Completed(CompletedItem::MirageFlower) => "Tone Dial + Energy Drink: AP + starting mana",
            Item::Completed(CompletedItem::AdamWood) => "Seastone Fragment + Seastone Fragment: Massive armor",
            Item::Completed(CompletedItem::SeaKingScale) => "Seastone Fragment + Tidal Cloak: Armor + MR",
            Item::Completed(CompletedItem::ThousandSunnyHull) => "Seastone Fragment + Meat: Armor + HP",
            Item::Completed(CompletedItem::VivrCard) => "Energy Drink + Tidal Cloak: Mana + survivability",
            Item::Completed(CompletedItem::LogPose) => "Sniper Goggles + Energy Drink: Crit + mana",
            Item::Completed(CompletedItem::Poneglyph) => "Tone Dial + Seastone Fragment: AP + armor",
            Item::Completed(CompletedItem::GumGumFruit) => "Cutlass + Meat: AD + HP",
            Item::Completed(CompletedItem::GomuGomuNoMi) => "Meat + Meat: Massive HP regeneration",
            Item::Completed(CompletedItem::HakiMastery) => "Tone Dial + Cutlass: AD + AP hybrid",
        }
    }

    /// What the item grants.
    pub fn get_description(&self) -> (r: &'static str)
        ensures
            r == self.description_spec(),
    {
        match self {
            Item::Component(ItemComponent::Cutlass) => "+AD (Attack Damage)",
            Item::Component(ItemComponent::SniperGoggles) => "+Crit Chance",
            Item::Component(ItemComponent::ShellDial) => "+AS (Attack Speed)",
            Item::Component(ItemComponent::ToneDial) => "+AP (Ability Power)",
            Item::Component(ItemComponent::SeastoneFragment) => "+Armor",
            Item::Component(ItemComponent::TidalCloak) => "+MR (Magic Resist)",
            Item::Component(ItemComponent::EnergyDrink) => "+Starting Mana",
            Item::Component(ItemComponent::Meat) => "+HP",
            Item::Completed(CompletedItem::Yoru) => "Cutlass + Sniper Goggles: +75% crit damage",
            Item::Completed(CompletedItem::Kabuto) => "Cutlass + Shell Dial: Attacks deal splash damage",
            Item::Completed(CompletedItem::Shusui) => "Cutlass + Seastone Fragment: Bonus AD + armor shred",
            Item::Completed(CompletedItem::ClimaTact) => "Tone Dial + Tone Dial: Doubles AP",
            Item::Completed(CompletedItem::ThunderTempo) => "Tone Dial + Shell Dial: AP + attack speed",
            Item::Completed(CompletedItem::MirageFlower) => "Tone Dial + Energy Drink: AP + starting mana",
            Item::Completed(CompletedItem::AdamWood) => "Seastone Fragment + Seastone Fragment: Massive armor",
            Item::Completed(CompletedItem::SeaKingScale) => "Seastone Fragment + Tidal Cloak: Armor + MR",
            Item::Completed(CompletedItem::ThousandSunnyHull) => "Seastone Fragment + Meat: Armor + HP",
            Item::Completed(CompletedItem::VivrCard) => "Energy Drink + Tidal Cloak: Mana + survivability",
            Item::Completed(CompletedItem::LogPose) => "Sniper Goggles + Energy Drink: Crit + mana",
            Item::Completed(CompletedItem::Poneglyph) => "Tone Dial + Seastone Fragment: AP + armor",
            Item::Completed(CompletedItem::GumGumFruit) => "Cutlass + Meat: AD + HP",
            Item::Completed(CompletedItem::GomuGomuNoMi) => "Meat + Meat: Massive HP regeneration",
            Item::Completed(CompletedItem::HakiMastery) => "Tone Dial + Cutlass: AD + AP hybrid",
        }
    }
}

/// Kind of a location on a journey map.
#[derive(Clone, Copy, Debug, PartialEq, Eq, Structural)]
pub enum LocationType {
    Start,
    End,
    PVECombat,
    PVPCombat,
    TreasureIsland,
}

/// Kind of a computer-controlled enemy.
#[derive(Clone, Copy, Debug, PartialEq, Eq, Structural)]
pub enum EnemyType {
    MarineSwordsman,
    MarineRifle,
    Parcifista,
    Smoker,
    Korby,
    Garp,
    Kizaru,
}

/// Where an enemy stands when a fight against the computer begins.
#[derive(Clone, Copy, Debug, PartialEq, Eq, Structural)]
pub struct EnemySpawn {
    /// The enemy record this spawn places.
    pub enemy_id: u64,
    pub position_x: u32,
    pub position_y: u32,
}

/// Stats of a computer-controlled enemy.
#[derive(Clone, Copy, Debug, PartialEq, Eq, Structural)]
pub struct Enemy {
    pub id: u64,
    pub enemy_type: EnemyType,
    pub max_hp: u32,
    pub attack: u32,
    pub defense: u32,
}

/// A fight against the computer at one map location, and what winning it pays.
#[derive(Clone, Debug)]
pub struct PveCombat {
    pub location_id: u64,
    pub enemies: Vec<EnemySpawn>,
    pub reward_items: Vec<Item>,
    pub reward_gold: u32,
}

} // verus!
