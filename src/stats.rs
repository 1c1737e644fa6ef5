use vstd::prelude::*;
use spacetimedb::Identity;
use crate::config::{BattleConfig, MAX_COORD};
use crate::items::{CompletedItemStats, ItemComponentStats, StatBonus, combination, try_combine_items};
use crate::types::{CompletedItem, CrewRarity, CrewTrait, Item, ItemComponent};
use crate::unit::BattleUnit;

verus! {

/// A roster entry: a crew member as its owner bought and equipped it.
/// `attack_speed` is in hundredths of an attack per second.
#[derive(Debug)]
pub struct Crew {
    pub id: u64,
    pub owner: Identity,
    pub name: String,
    pub rarity: CrewRarity,
    pub traits: Vec<CrewTrait>,
    pub max_hp: u32,
    pub ability_power: u32,
    pub attack: u32,
    pub attack_speed: u32,
    pub defense: u32,
    pub magic_resistance: u32,
    pub level: u8,
    /// Place on the field; a crew member without one stays out of battles.
    pub slot_index: Option<u8>,
    pub bench_index: Option<u8>,
    pub item1: Option<Item>,
    pub item2: Option<Item>,
    pub item3: Option<Item>,
}

/// The stat tables that equipped items are looked up in.
pub struct ItemCatalog {
    pub components: Vec<ItemComponentStats>,
    pub completed: Vec<CompletedItemStats>,
}

/// The combat stats of a unit about to be created. Fractional stats are in
/// hundredths and, like the integer ones, are not clamped to a natural range.
#[derive(Clone, Copy, Debug, PartialEq, Eq, Structural)]
pub struct UnitStats {
    pub hp: u32,
    pub ad: u32,
    pub armor: u32,
    pub ap: u32,
    pub mr: u32,
    pub crit_chance: u32,
    pub crit_damage: u32,
    pub attack_speed: u32,
    pub max_mana: u32,
}

/// `a + b`, or `u32::MAX` where that does not fit.
pub open spec fn sat_add(a: u32, b: u32) -> u32 {
    if a + b > u32::MAX { u32::MAX } else { (a + b) as u32 }
}

/// The completed item that two equipped items combine into: both must be components.
pub open spec fn pair_combination(a: Option<Item>, b: Option<Item>) -> Option<CompletedItem> {
    match (a, b) {
        (Some(Item::Component(x)), Some(Item::Component(y))) => combination(x, y),
        _ => None,
    }
}

/// The three equipment slots after combination: the first pair of slots, in
/// the order (1, 2), (1, 3), (2, 3), whose components make a completed item
/// is replaced by that item, standing in the first slot of the pair.
pub open spec fn resolved_items(i1: Option<Item>, i2: Option<Item>, i3: Option<Item>) -> (Option<Item>, Option<Item>, Option<Item>) {
    if let Some(c) = pair_combination(i1, i2) {
        (Some(Item::Completed(c)), None, i3)
    } else if let Some(c) = pair_combination(i1, i3) {
        (Some(Item::Completed(c)), i2, None)
    } else if let Some(c) = pair_combination(i2, i3) {
        (i1, Some(Item::Completed(c)), None)
    } else {
        (i1, i2, i3)
    }
}

fn component_pair(a: Option<Item>, b: Option<Item>) -> (r: Option<CompletedItem>)
    ensures
        r == pair_combination(a, b),
{
    match (a, b) {
        (Some(Item::Component(x)), Some(Item::Component(y))) => try_combine_items(x, y),
        _ => None,
    }
}

/// Combines the first matching pair of equipped components into its completed item.
pub fn resolve_items(i1: Option<Item>, i2: Option<Item>, i3: Option<Item>) -> (r: (Option<Item>, Option<Item>, Option<Item>))
    ensures
        r == resolved_items(i1, i2, i3),
{
    if let Some(c) = component_pair(i1, i2) {
        (Some(Item::Completed(c)), None, i3)
    } else if let Some(c) = component_pair(i1, i3) {
        (Some(Item::Completed(c)), i2, None)
    } else if let Some(c) = component_pair(i2, i3) {
        (i1, Some(Item::Completed(c)), None)
    } else {
        (i1, i2, i3)
    }
}

/// Row `i` is the first row of the component table for `c`.
pub open spec fn is_first_component_row(rows: Seq<ItemComponentStats>, c: ItemComponent, i: int) -> bool {
    &&& 0 <= i < rows.len()
    &&& rows[i].component == c
    &&& forall|j: int| 0 <= j < i ==> (#[trigger] rows[j]).component != c
}

/// Row `i` is the first row of the completed-item table for `c`.
pub open spec fn is_first_completed_row(rows: Seq<CompletedItemStats>, c: CompletedItem, i: int) -> bool {
    &&& 0 <= i < rows.len()
    &&& rows[i].item == c
    &&& forall|j: int| 0 <= j < i ==> (#[trigger] rows[j]).item != c
}

/// The bonus of an equipped item: that of its first row in the catalog, or
/// none for an empty slot or an item the catalog does not know.
pub open spec fn item_bonus(cat_components: Seq<ItemComponentStats>, cat_completed: Seq<CompletedItemStats>, item: Option<Item>) -> Option<StatBonus> {
    match item {
        Some(Item::Component(c)) => if exists|i: int| is_first_component_row(cat_components, c, i) {
            Some(cat_components[choose|i: int| is_first_component_row(cat_components, c, i)].bonus)
        } else {
            None
        },
        Some(Item::Completed(c)) => if exists|i: int| is_first_completed_row(cat_completed, c, i) {
            Some(cat_completed[choose|i: int| is_first_completed_row(cat_completed, c, i)].bonus)
        } else {
            None
        },
        None => None,
    }
}

impl ItemCatalog {
    /// The bonus an equipped item grants, if the catalog knows it.
    pub fn lookup(&self, item: Option<Item>) -> (r: Option<StatBonus>)
        ensures
            r == item_bonus(self.components@, self.completed@, item),
    {
        match item {
            Some(Item::Component(c)) => {
                let mut i: usize = 0;
                while i < self.components.len()
                    invariant
                        item == Some(Item::Component(c)),
                        i <= self.components@.len(),
                        forall|j: int| 0 <= j < i ==> (#[trigger] self.components@[j]).component != c,
                    decreases self.components@.len() - i,
                {
                    if self.components[i].component == c {
                        proof {
                            assert(is_first_component_row(self.components@, c, i as int));
                            let k = choose|k: int| is_first_component_row(self.components@, c, k);
                            if k < i {
                                assert(self.components@[k].component != c);
                            } else if i < k {
                                assert(self.components@[i as int].component != c);
                            }
                        }
                        return Some(self.components[i].bonus);
                    }
                    i = i + 1;
                }
                None
            },
            Some(Item::Completed(c)) => {
                let mut i: usize = 0;
                while i < self.completed.len()
                    invariant
                        item == Some(Item::Completed(c)),
                        i <= self.completed@.len(),
                        forall|j: int| 0 <= j < i ==> (#[trigger] self.completed@[j]).item != c,
                    decreases self.completed@.len() - i,
                {
                    if self.completed[i].item == c {
                        proof {
                            assert(is_first_completed_row(self.completed@, c, i as int));
                            let k = choose|k: int| is_first_completed_row(self.completed@, c, k);
                            if k < i {
                                assert(self.completed@[k].item != c);
                            } else if i < k {
                                assert(self.completed@[i as int].item != c);
                            }
                        }
                        return Some(self.completed[i].bonus);
                    }
                    i = i + 1;
                }
                None
            },
            None => None,
        }
    }
}

/// Stats raised by a bonus, each by saturating addition.
pub open spec fn add_bonus(s: UnitStats, b: StatBonus) -> UnitStats {
    UnitStats {
        hp: sat_add(s.hp, b.hp),
        ad: sat_add(s.ad, b.ad),
        armor: sat_add(s.armor, b.armor),
        ap: sat_add(s.ap, b.ap),
        mr: sat_add(s.mr, b.mr),
        crit_chance: sat_add(s.crit_chance, b.crit_chance),
        crit_damage: sat_add(s.crit_damage, b.crit_damage),
        attack_speed: sat_add(s.attack_speed, b.attack_speed),
        max_mana: sat_add(s.max_mana, b.mana),
    }
}

/// Stats raised by the bonus of an equipped item, if it has one.
pub open spec fn with_item(s: UnitStats, cat_components: Seq<ItemComponentStats>, cat_completed: Seq<CompletedItemStats>, item: Option<Item>) -> UnitStats {
    match item_bonus(cat_components, cat_completed, item) {
        Some(b) => add_bonus(s, b),
        None => s,
    }
}

/// Stats of a roster entry before any item: its hp, attack and defense, and
/// the configured bases of the rest.
pub open spec fn base_stats(crew: Crew, cfg: BattleConfig) -> UnitStats {
    UnitStats {
        hp: crew.max_hp,
        ad: crew.attack,
        armor: crew.defense,
        ap: 0,
        mr: 0,
        crit_chance: 0,
        crit_damage: cfg.base_crit_damage,
        attack_speed: cfg.base_attack_speed,
        max_mana: cfg.base_mana,
    }
}

/// Stats of a roster entry with its equipment, combined items counted once
/// as the completed item.
pub open spec fn unit_stats_spec(crew: Crew, cat_components: Seq<ItemComponentStats>, cat_completed: Seq<CompletedItemStats>, cfg: BattleConfig) -> UnitStats {
    let items = resolved_items(crew.item1, crew.item2, crew.item3);
    with_item(
        with_item(with_item(base_stats(crew, cfg), cat_components, cat_completed, items.0), cat_components, cat_completed, items.1),
        cat_components,
        cat_completed,
        items.2,
    )
}

fn add_bonus_to(s: UnitStats, b: StatBonus) -> (r: UnitStats)
    ensures
        r == add_bonus(s, b),
{
    UnitStats {
        hp: s.hp.saturating_add(b.hp),
        ad: s.ad.saturating_add(b.ad),
        armor: s.armor.saturating_add(b.armor),
        ap: s.ap.saturating_add(b.ap),
        mr: s.mr.saturating_add(b.mr),
        crit_chance: s.crit_chance.saturating_add(b.crit_chance),
        crit_damage: s.crit_damage.saturating_add(b.crit_damage),
        attack_speed: s.attack_speed.saturating_add(b.attack_speed),
        max_mana: s.max_mana.saturating_add(b.mana),
    }
}

fn apply_item(s: UnitStats, cat: &ItemCatalog, item: Option<Item>) -> (r: UnitStats)
    ensures
        r == with_item(s, cat.components@, cat.completed@, item),
{
    match cat.lookup(item) {
        Some(b) => add_bonus_to(s, b),
        None => s,
    }
}

/// Stats of a roster entry with its equipped items: the base stats, then the
/// bonus of every equipped item that the catalog knows, added with saturation.
/// Two components that make a completed item count as that item alone.
pub fn calculate_unit_stats(crew: &Crew, cat: &ItemCatalog, cfg: &BattleConfig) -> (r: UnitStats)
    ensures
        r == unit_stats_spec(*crew, cat.components@, cat.completed@, *cfg),
{
    let base = UnitStats {
        hp: crew.max_hp,
        ad: crew.attack,
        armor: crew.defense,
        ap: 0,
        mr: 0,
        crit_chance: 0,
        crit_damage: cfg.base_crit_damage,
        attack_speed: cfg.base_attack_speed,
        max_mana: cfg.base_mana,
    };
    let items = resolve_items(crew.item1, crew.item2, crew.item3);
    let s1 = apply_item(base, cat, items.0);
    let s2 = apply_item(s1, cat, items.1);
    apply_item(s2, cat, items.2)
}

/// Equipping two components that make a completed item gives the unit the
/// completed item's row alone, never the two components' rows added up.
pub proof fn lemma_combination_precedence(
    crew: Crew,
    cat_components: Seq<ItemComponentStats>,
    cat_completed: Seq<CompletedItemStats>,
    cfg: BattleConfig,
    a: ItemComponent,
    b: ItemComponent,
    done: CompletedItem,
)
    requires
        crew.item1 == Some(Item::Component(a)),
        crew.item2 == Some(Item::Component(b)),
        combination(a, b) == Some(done),
    ensures
        unit_stats_spec(crew, cat_components, cat_completed, cfg) == with_item(
            with_item(base_stats(crew, cfg), cat_components, cat_completed, Some(Item::Completed(done))),
            cat_components,
            cat_completed,
            crew.item3,
        ),
{
}

/// What a bonus adds to one stat.
pub open spec fn bonus_value(b: StatBonus, stat: UpgradeStat) -> u32 {
    match stat {
        UpgradeStat::Hp => b.hp,
        UpgradeStat::Attack => b.ad,
        UpgradeStat::Armor => b.armor,
        UpgradeStat::AbilityPower => b.ap,
        UpgradeStat::MagicResist => b.mr,
        UpgradeStat::CritChance => b.crit_chance,
        UpgradeStat::CritDamage => b.crit_damage,
        UpgradeStat::AttackSpeed => b.attack_speed,
        UpgradeStat::Mana => b.mana,
    }
}

/// What an equipped item adds to one stat: nothing for an empty slot or an
/// item the catalog does not know.
pub open spec fn item_stat_bonus(cat_components: Seq<ItemComponentStats>, cat_completed: Seq<CompletedItemStats>, item: Option<Item>, stat: UpgradeStat) -> int {
    match item_bonus(cat_components, cat_completed, item) {
        Some(b) => bonus_value(b, stat) as int,
        None => 0,
    }
}

proof fn lemma_with_item_stat(
    s: UnitStats,
    cat_components: Seq<ItemComponentStats>,
    cat_completed: Seq<CompletedItemStats>,
    item: Option<Item>,
    stat: UpgradeStat,
)
    ensures
        ({
            let total = stat_value(s, stat) + item_stat_bonus(cat_components, cat_completed, item, stat);
            stat_value(with_item(s, cat_components, cat_completed, item), stat) == if total > u32::MAX {
                u32::MAX as int
            } else {
                total
            }
        }),
{
    match item_bonus(cat_components, cat_completed, item) {
        Some(b) => {
            assert(with_item(s, cat_components, cat_completed, item) == add_bonus(s, b));
            match stat {
                UpgradeStat::Hp => {},
                UpgradeStat::Attack => {},
                UpgradeStat::Armor => {},
                UpgradeStat::AbilityPower => {},
                UpgradeStat::MagicResist => {},
                UpgradeStat::CritChance => {},
                UpgradeStat::CritDamage => {},
                UpgradeStat::AttackSpeed => {},
                UpgradeStat::Mana => {},
            }
        },
        None => {},
    }
}

/// Adding bonuses one after another with saturation never exceeds
/// `u32::MAX` and never wraps: every stat of a unit is its base plus the
/// bonuses of its (combined) items, capped at `u32::MAX`.
pub proof fn lemma_saturating_aggregation(
    crew: Crew,
    cat_components: Seq<ItemComponentStats>,
    cat_completed: Seq<CompletedItemStats>,
    cfg: BattleConfig,
    stat: UpgradeStat,
)
    ensures
        ({
            let items = resolved_items(crew.item1, crew.item2, crew.item3);
            let total = stat_value(base_stats(crew, cfg), stat) + item_stat_bonus(cat_components, cat_completed, items.0, stat)
                + item_stat_bonus(cat_components, cat_completed, items.1, stat) + item_stat_bonus(cat_components, cat_completed, items.2, stat);
            stat_value(unit_stats_spec(crew, cat_components, cat_completed, cfg), stat) == if total > u32::MAX {
                u32::MAX as int
            } else {
                total
            }
        }),
{
    let items = resolved_items(crew.item1, crew.item2, crew.item3);
    let s0 = base_stats(crew, cfg);
    let s1 = with_item(s0, cat_components, cat_completed, items.0);
    let s2 = with_item(s1, cat_components, cat_completed, items.1);
    lemma_with_item_stat(s0, cat_components, cat_completed, items.0, stat);
    lemma_with_item_stat(s1, cat_components, cat_completed, items.1, stat);
    lemma_with_item_stat(s2, cat_components, cat_completed, items.2, stat);
    lemma_item_stat_bonus_nonneg(cat_components, cat_completed, items.0, stat);
    lemma_item_stat_bonus_nonneg(cat_components, cat_completed, items.1, stat);
    lemma_item_stat_bonus_nonneg(cat_components, cat_completed, items.2, stat);
}

proof fn lemma_item_stat_bonus_nonneg(
    cat_components: Seq<ItemComponentStats>,
    cat_completed: Seq<CompletedItemStats>,
    item: Option<Item>,
    stat: UpgradeStat,
)
    ensures
        0 <= item_stat_bonus(cat_components, cat_completed, item, stat) <= u32::MAX,
{
}

/// A stat that an upgrade raises.
#[derive(Clone, Copy, Debug, PartialEq, Eq, Structural)]
pub enum UpgradeStat {
    Hp,
    Attack,
    Armor,
    AbilityPower,
    MagicResist,
    CritChance,
    CritDamage,
    AttackSpeed,
    Mana,
}

/// A ship or crew upgrade: a flat raise for every unit, or a flat or
/// percentage raise for units that carry a trait.
#[derive(Clone, Copy, Debug, PartialEq, Eq, Structural)]
pub enum UpgradeEffect {
    Flat { stat: UpgradeStat, amount: u32 },
    TraitFlat { required: CrewTrait, stat: UpgradeStat, amount: u32 },
    TraitPercent { required: CrewTrait, stat: UpgradeStat, percent: u32 },
}

/// The value of one stat.
pub open spec fn stat_value(s: UnitStats, stat: UpgradeStat) -> u32 {
    match stat {
        UpgradeStat::Hp => s.hp,
        UpgradeStat::Attack => s.ad,
        UpgradeStat::Armor => s.armor,
        UpgradeStat::AbilityPower => s.ap,
        UpgradeStat::MagicResist => s.mr,
        UpgradeStat::CritChance => s.crit_chance,
        UpgradeStat::CritDamage => s.crit_damage,
        UpgradeStat::AttackSpeed => s.attack_speed,
        UpgradeStat::Mana => s.max_mana,
    }
}

/// The stats with one stat replaced.
pub open spec fn with_stat(s: UnitStats, stat: UpgradeStat, v: u32) -> UnitStats {
    match stat {
        UpgradeStat::Hp => UnitStats { hp: v, ..s },
        UpgradeStat::Attack => UnitStats { ad: v, ..s },
        UpgradeStat::Armor => UnitStats { armor: v, ..s },
        UpgradeStat::AbilityPower => UnitStats { ap: v, ..s },
        UpgradeStat::MagicResist => UnitStats { mr: v, ..s },
        UpgradeStat::CritChance => UnitStats { crit_chance: v, ..s },
        UpgradeStat::CritDamage => UnitStats { crit_damage: v, ..s },
        UpgradeStat::AttackSpeed => UnitStats { attack_speed: v, ..s },
        UpgradeStat::Mana => UnitStats { max_mana: v, ..s },
    }
}

/// `v` raised by `percent` percent of itself (rounded down), capped at `u32::MAX`.
pub open spec fn raise_by_percent(v: u32, percent: u32) -> u32 {
    let raised = v + v * percent / 100;
    if raised > u32::MAX { u32::MAX } else { raised as u32 }
}

/// The stats after one upgrade, for a unit with the given traits.
pub open spec fn upgrade_spec(s: UnitStats, e: UpgradeEffect, traits: Seq<CrewTrait>) -> UnitStats {
    match e {
        UpgradeEffect::Flat { stat, amount } => with_stat(s, stat, sat_add(stat_value(s, stat), amount)),
        UpgradeEffect::TraitFlat { required, stat, amount } => if traits.contains(required) {
            with_stat(s, stat, sat_add(stat_value(s, stat), amount))
        } else {
            s
        },
        UpgradeEffect::TraitPercent { required, stat, percent } => if traits.contains(required) {
            with_stat(s, stat, raise_by_percent(stat_value(s, stat), percent))
        } else {
            s
        },
    }
}

/// The stats after a list of upgrades, applied in order.
pub open spec fn upgrades_spec(s: UnitStats, effects: Seq<UpgradeEffect>, traits: Seq<CrewTrait>) -> UnitStats
    decreases effects.len(),
{
    if effects.len() == 0 {
        s
    } else {
        upgrade_spec(upgrades_spec(s, effects.drop_last(), traits), effects.last(), traits)
    }
}

fn has_trait(traits: &Vec<CrewTrait>, t: CrewTrait) -> (r: bool)
    ensures
        r == traits@.contains(t),
{
    let mut i: usize = 0;
    while i < traits.len()
        invariant
            i <= traits@.len(),
            forall|j: int| 0 <= j < i ==> traits@[j] != t,
        decreases traits@.len() - i,
    {
        if traits[i] == t {
            assert(traits@[i as int] == t);
            return true;
        }
        i = i + 1;
    }
    false
}

fn get_stat(s: &UnitStats, stat: UpgradeStat) -> (r: u32)
    ensures
        r == stat_value(*s, stat),
{
    match stat {
        UpgradeStat::Hp => s.hp,
        UpgradeStat::Attack => s.ad,
        UpgradeStat::Armor => s.armor,
        UpgradeStat::AbilityPower => s.ap,
        UpgradeStat::MagicResist => s.mr,
        UpgradeStat::CritChance => s.crit_chance,
        UpgradeStat::CritDamage => s.crit_damage,
        UpgradeStat::AttackSpeed => s.attack_speed,
        UpgradeStat::Mana => s.max_mana,
    }
}

fn set_stat(s: UnitStats, stat: UpgradeStat, v: u32) -> (r: UnitStats)
    ensures
        r == with_stat(s, stat, v),
{
    let mut r = s;
    match stat {
        UpgradeStat::Hp => r.hp = v,
        UpgradeStat::Attack => r.ad = v,
        UpgradeStat::Armor => r.armor = v,
        UpgradeStat::AbilityPower => r.ap = v,
        UpgradeStat::MagicResist => r.mr = v,
        UpgradeStat::CritChance => r.crit_chance = v,
        UpgradeStat::CritDamage => r.crit_damage = v,
        UpgradeStat::AttackSpeed => r.attack_speed = v,
        UpgradeStat::Mana => r.max_mana = v,
    }
    r
}

fn percent_raise(v: u32, percent: u32) -> (r: u32)
    ensures
        r == raise_by_percent(v, percent),
{
    let v64 = v as u64;
    assert(v64 * (percent as u64) <= u32::MAX as u64 * u32::MAX as u64) by (nonlinear_arith)
        requires v64 <= u32::MAX, percent <= u32::MAX;
    let inc = v64 * (percent as u64) / 100;
    assert(inc <= v64 * (percent as u64));
    if inc > u32::MAX as u64 - v64 { u32::MAX } else { (v64 + inc) as u32 }
}

/// One upgrade applied to a unit's stats.
pub fn apply_upgrade(s: UnitStats, e: UpgradeEffect, traits: &Vec<CrewTrait>) -> (r: UnitStats)
    ensures
        r == upgrade_spec(s, e, traits@),
{
    match e {
        UpgradeEffect::Flat { stat, amount } => set_stat(s, stat, get_stat(&s, stat).saturating_add(amount)),
        UpgradeEffect::TraitFlat { required, stat, amount } => if has_trait(traits, required) {
            set_stat(s, stat, get_stat(&s, stat).saturating_add(amount))
        } else {
            s
        },
        UpgradeEffect::TraitPercent { required, stat, percent } => if has_trait(traits, required) {
            set_stat(s, stat, percent_raise(get_stat(&s, stat), percent))
        } else {
            s
        },
    }
}

/// Every upgrade of the list applied in order, each through the same dispatch.
pub fn apply_upgrade_effects(s: UnitStats, effects: &Vec<UpgradeEffect>, traits: &Vec<CrewTrait>) -> (r: UnitStats)
    ensures
        r == upgrades_spec(s, effects@, traits@),
{
    let mut acc = s;
    let mut i: usize = 0;
    while i < effects.len()
        invariant
            i <= effects@.len(),
            acc == upgrades_spec(s, effects@.take(i as int), traits@),
        decreases effects@.len() - i,
    {
        assert(effects@.take(i as int + 1).drop_last() == effects@.take(i as int));
        acc = apply_upgrade(acc, effects[i], traits);
        i = i + 1;
    }
    assert(effects@.take(effects@.len() as int) == effects@);
    acc
}

/// An upgrade never lowers a stat.
pub proof fn lemma_upgrade_never_lowers(s: UnitStats, e: UpgradeEffect, traits: Seq<CrewTrait>, stat: UpgradeStat)
    ensures
        stat_value(upgrade_spec(s, e, traits), stat) >= stat_value(s, stat),
{
    assert(forall|v: u32, p: u32| #[trigger] raise_by_percent(v, p) >= v) by {
        assert forall|v: u32, p: u32| #[trigger] raise_by_percent(v, p) >= v by {
            assert(v * p / 100 >= 0) by (nonlinear_arith)
                requires v >= 0, p >= 0;
        }
    }
}

/// A list of upgrades never lowers a stat.
pub proof fn lemma_upgrades_never_lower(s: UnitStats, effects: Seq<UpgradeEffect>, traits: Seq<CrewTrait>, stat: UpgradeStat)
    ensures
        stat_value(upgrades_spec(s, effects, traits), stat) >= stat_value(s, stat),
    decreases effects.len(),
{
    if effects.len() > 0 {
        lemma_upgrades_never_lower(s, effects.drop_last(), traits, stat);
        lemma_upgrade_never_lowers(upgrades_spec(s, effects.drop_last(), traits), effects.last(), traits, stat);
    }
}

/// Stats of a unit: its equipped items, then its upgrades.
pub open spec fn final_stats_spec(
    crew: Crew,
    cat_components: Seq<ItemComponentStats>,
    cat_completed: Seq<CompletedItemStats>,
    upgrades: Seq<UpgradeEffect>,
    cfg: BattleConfig,
) -> UnitStats {
    upgrades_spec(unit_stats_spec(crew, cat_components, cat_completed, cfg), upgrades, crew.traits@)
}

/// Where the unit at `index` of a side's line-up starts: rows of five, the
/// left side from x = 200 rightwards, the right side from x = 1400 leftwards.
pub open spec fn spawn_position_spec(index: int, side: u8) -> (int, int) {
    let row = index / 5;
    let col = index % 5;
    (if side == 0 { 200 + col * 80 } else { 1400 - col * 80 }, 300 + row * 150)
}

/// Where the unit at `index` of a side's line-up starts.
pub fn get_spawn_position(index: usize, side: u8) -> (r: (i64, i64))
    requires
        index <= 1000,
    ensures
        r.0 == spawn_position_spec(index as int, side).0,
        r.1 == spawn_position_spec(index as int, side).1,
        0 <= r.0 <= MAX_COORD,
        0 <= r.1 <= MAX_COORD,
{
    let row = (index / 5) as i64;
    let col = (index % 5) as i64;
    let x = if side == 0 { 200 + col * 80 } else { 1400 - col * 80 };
    (x, 300 + row * 150)
}

/// The unit made from a roster entry: its final stats frozen in, hp and mana
/// full, no target, ready to attack at once.
pub open spec fn new_unit_spec(
    id: u64,
    battle_id: u64,
    crew: Crew,
    owner: Identity,
    side: u8,
    position: (i64, i64),
    cat_components: Seq<ItemComponentStats>,
    cat_completed: Seq<CompletedItemStats>,
    upgrades: Seq<UpgradeEffect>,
    cfg: BattleConfig,
) -> BattleUnit {
    let s = final_stats_spec(crew, cat_components, cat_completed, upgrades, cfg);
    BattleUnit {
        id,
        battle_id,
        crew_id: crew.id,
        owner,
        side,
        x: position.0,
        y: position.1,
        velocity_x: 0,
        velocity_y: 0,
        radius: cfg.unit_radius,
        max_hp: s.hp,
        current_hp: s.hp,
        attack: s.ad,
        defense: s.armor,
        ability_power: s.ap,
        magic_resist: s.mr,
        attack_speed: s.attack_speed,
        crit_chance: s.crit_chance,
        crit_damage: s.crit_damage,
        max_mana: s.max_mana,
        current_mana: s.max_mana,
        mana_per_attack: cfg.mana_per_attack,
        attack_cooldown: 0,
        target_unit_id: None,
        ability_ready: false,
        ability_cooldown: 0,
        is_stunned: false,
        stun_duration: 0,
    }
}

/// A battle unit made from a roster entry.
pub fn create_battle_unit(
    id: u64,
    battle_id: u64,
    crew: &Crew,
    owner: Identity,
    side: u8,
    position: (i64, i64),
    cat: &ItemCatalog,
    upgrades: &Vec<UpgradeEffect>,
    cfg: &BattleConfig,
) -> (r: BattleUnit)
    requires
        cfg.wf(),
        side <= 1,
        0 <= position.0 <= MAX_COORD,
        0 <= position.1 <= MAX_COORD,
    ensures
        r == new_unit_spec(id, battle_id, *crew, owner, side, position, cat.components@, cat.completed@, upgrades@, *cfg),
        r.wf(*cfg),
{
    let items = calculate_unit_stats(crew, cat, cfg);
    let s = apply_upgrade_effects(items, upgrades, &crew.traits);
    proof {
        lemma_upgrades_never_lower(items, upgrades@, crew.traits@, UpgradeStat::AttackSpeed);
    }
    BattleUnit {
        id,
        battle_id,
        crew_id: crew.id,
        owner,
        side,
        x: position.0,
        y: position.1,
        velocity_x: 0,
        velocity_y: 0,
        radius: cfg.unit_radius,
        max_hp: s.hp,
        current_hp: s.hp,
        attack: s.ad,
        defense: s.armor,
        ability_power: s.ap,
        magic_resist: s.mr,
        attack_speed: s.attack_speed,
        crit_chance: s.crit_chance,
        crit_damage: s.crit_damage,
        max_mana: s.max_mana,
        current_mana: s.max_mana,
        mana_per_attack: cfg.mana_per_attack,
        attack_cooldown: 0,
        target_unit_id: None,
        ability_ready: false,
        ability_cooldown: 0,
        is_stunned: false,
        stun_duration: 0,
    }
}

} // verus!
