use vstd::prelude::*;
use crate::config::{BattleConfig, MAX_TIMER_MS};
use crate::spatial::{BattleCollisionCache, CacheEntry, find_nearest_enemy, nearest_spec};
use crate::unit::{BattleUnit, units_wf};

verus! {

/// Damage of one attack. The base is the attack stat, times the crit damage
/// multiplier (in hundredths) on a critical hit; mitigation keeps the fraction
/// `100 / (defense + 100)` of it; the result is rounded down, raised to the
/// floor `min_damage`, and capped at `u32::MAX`.
pub open spec fn damage_spec(attack: int, defense: int, crit_damage: int, is_crit: bool, min_damage: int) -> int {
    let raw = if is_crit {
        attack * crit_damage / (defense + 100)
    } else {
        attack * 100 / (defense + 100)
    };
    let floored = if raw < min_damage { min_damage } else { raw };
    if floored > u32::MAX { u32::MAX as int } else { floored }
}

/// Damage dealt by an attacker with `attack` to a target with `defense`.
pub fn calculate_damage(attack: u32, defense: u32, crit_damage: u32, is_crit: bool, min_damage: u32) -> (r: u32)
    ensures
        r == damage_spec(attack as int, defense as int, crit_damage as int, is_crit, min_damage as int),
{
    let multiplier: u64 = if is_crit { crit_damage as u64 } else { 100 };
    assert((attack as u64) * multiplier <= u32::MAX as u64 * u32::MAX as u64) by (nonlinear_arith)
        requires multiplier <= u32::MAX;
    let raw: u64 = (attack as u64) * multiplier / (defense as u64 + 100);
    let floored: u64 = if raw < min_damage as u64 { min_damage as u64 } else { raw };
    if floored > u32::MAX as u64 { u32::MAX } else { floored as u32 }
}

/// A crit roll, drawn uniformly from `0..100`, hits when it is below the crit
/// chance (in hundredths).
pub open spec fn is_crit_spec(roll: u32, crit_chance: u32) -> bool {
    roll < crit_chance
}

/// The attack cooldown after one step of waiting: one step's length less,
/// going negative once the unit is ready, and held at `-MAX_TIMER_MS` so that
/// it stays within its bounds however long the unit waits.
pub open spec fn cooled_down(u: BattleUnit, cfg: BattleConfig) -> int {
    let left = u.attack_cooldown - cfg.tick_millis;
    if left < -MAX_TIMER_MS { -MAX_TIMER_MS as int } else { left }
}

/// Mana after an attack: raised by the unit's gain, capped at its pool.
pub open spec fn mana_after_attack(u: BattleUnit) -> u32 {
    if u.current_mana + u.mana_per_attack > u.max_mana { u.max_mana } else { (u.current_mana + u.mana_per_attack) as u32 }
}

/// Cooldown after an attack: one over the attack speed, in milliseconds.
pub open spec fn attack_interval(u: BattleUnit) -> int {
    100_000int / (u.attack_speed as int)
}

/// The record the unit of record `j` attacks or would attack: the nearest
/// living enemy within attack range of where it stood.
pub open spec fn target_of(entries: Seq<CacheEntry>, j: int, cfg: BattleConfig) -> Option<int> {
    nearest_spec(entries, entries[j].x as int, entries[j].y as int, entries[j].side, cfg.attack_range as int)
}

/// Whether the unit of record `j` attacks this step.
pub open spec fn attacks(u: BattleUnit, entries: Seq<CacheEntry>, j: int, cfg: BattleConfig) -> bool {
    &&& !u.is_stunned
    &&& target_of(entries, j, cfg) is Some
    &&& cooled_down(u, cfg) <= 0
}

/// The damage that the unit of record `j` queues this step, if it attacks.
pub open spec fn queued_damage(u: BattleUnit, entries: Seq<CacheEntry>, j: int, roll: u32, cfg: BattleConfig) -> int {
    let t = target_of(entries, j, cfg)->0;
    damage_spec(
        u.attack as int,
        entries[t].defense as int,
        u.crit_damage as int,
        is_crit_spec(roll, u.crit_chance),
        cfg.min_damage as int,
    )
}

/// The unit of record `j` after its combat step: a stunned unit only waits
/// out its stun; any other cools down, takes the nearest enemy in range as
/// its target, and attacks it once its cooldown has run out.
pub open spec fn resolve_unit_spec(u: BattleUnit, entries: Seq<CacheEntry>, j: int, cfg: BattleConfig) -> BattleUnit {
    if u.is_stunned {
        let left = u.stun_duration - cfg.tick_millis;
        if left <= 0 {
            BattleUnit { is_stunned: false, stun_duration: 0, ..u }
        } else {
            BattleUnit { stun_duration: left as i64, ..u }
        }
    } else {
        let target_id = match target_of(entries, j, cfg) {
            Some(t) => Some(entries[t].id),
            None => None,
        };
        if attacks(u, entries, j, cfg) {
            let mana = mana_after_attack(u);
            BattleUnit {
                attack_cooldown: attack_interval(u) as i64,
                current_mana: mana,
                ability_ready: u.ability_ready || mana >= cfg.ability_mana_threshold,
                target_unit_id: target_id,
                ..u
            }
        } else {
            BattleUnit { attack_cooldown: cooled_down(u, cfg) as i64, target_unit_id: target_id, ..u }
        }
    }
}

/// The record among the first `n` that belongs to the unit at position `k`.
pub open spec fn entry_for(entries: Seq<CacheEntry>, n: int, k: int) -> Option<int>
    decreases n,
{
    if n <= 0 {
        None
    } else if entries[n - 1].unit == k {
        Some(n - 1)
    } else {
        entry_for(entries, n - 1, k)
    }
}

/// A unit whose position lies beyond every one of the first `n` records has none of them.
pub proof fn lemma_entry_for_none(entries: Seq<CacheEntry>, n: int, k: int)
    requires
        0 <= n <= entries.len(),
        forall|j: int| 0 <= j < n ==> (#[trigger] entries[j]).unit < k,
    ensures
        entry_for(entries, n, k) is None,
    decreases n,
{
    if n > 0 {
        lemma_entry_for_none(entries, n - 1, k);
    }
}

/// Damage queued against record `t` by the units of the first `n` records;
/// the unit at position `k` of the list rolls `rolls[k]` for a crit.
pub open spec fn damage_total(
    units: Seq<BattleUnit>,
    entries: Seq<CacheEntry>,
    rolls: Seq<u32>,
    cfg: BattleConfig,
    n: int,
    t: int,
) -> int
    decreases n,
{
    if n <= 0 {
        0
    } else {
        let j = n - 1;
        let u = units[entries[j].unit as int];
        let here = if attacks(u, entries, j, cfg) && target_of(entries, j, cfg) == Some(t) {
            queued_damage(u, entries, j, rolls[entries[j].unit as int], cfg)
        } else {
            0
        };
        damage_total(units, entries, rolls, cfg, n - 1, t) + here
    }
}

proof fn lemma_damage_total_nonneg(
    units: Seq<BattleUnit>,
    entries: Seq<CacheEntry>,
    rolls: Seq<u32>,
    cfg: BattleConfig,
    n: int,
    t: int,
)
    ensures
        damage_total(units, entries, rolls, cfg, n, t) >= 0,
    decreases n,
{
    if n > 0 {
        lemma_damage_total_nonneg(units, entries, rolls, cfg, n - 1, t);
    }
}

/// A total, capped at `u32::MAX`.
pub open spec fn capped(v: int) -> int {
    if v > u32::MAX { u32::MAX as int } else { v }
}

/// The unit list after every indexed unit's combat step.
pub open spec fn combat_pass(units: Seq<BattleUnit>, entries: Seq<CacheEntry>, cfg: BattleConfig) -> Seq<BattleUnit> {
    Seq::new(units.len(), |k: int| match entry_for(entries, entries.len() as int, k) {
        Some(j) => resolve_unit_spec(units[k], entries, j, cfg),
        None => units[k],
    })
}

/// The damage queued against each record in one combat pass.
pub open spec fn queued_damages(units: Seq<BattleUnit>, entries: Seq<CacheEntry>, rolls: Seq<u32>, cfg: BattleConfig) -> Seq<u32> {
    Seq::new(entries.len(), |t: int| capped(damage_total(units, entries, rolls, cfg, entries.len() as int, t)) as u32)
}

/// The unit list after the queued damage is applied.
pub open spec fn commit_pass(units: Seq<BattleUnit>, entries: Seq<CacheEntry>, damages: Seq<u32>) -> Seq<BattleUnit> {
    Seq::new(units.len(), |k: int| match entry_for(entries, entries.len() as int, k) {
        Some(j) => after_damage(units[k], damages[j]),
        None => units[k],
    })
}

/// Runs the combat step of every indexed unit against the index's snapshot:
/// each updates its own stun, cooldown, target and mana, and queues its damage
/// against its target's record, where it adds up (capped at `u32::MAX`). No
/// unit's hp changes here.
pub fn process_unit_ai_and_combat(
    units: &mut Vec<BattleUnit>,
    cache: &mut BattleCollisionCache,
    rolls: &Vec<u32>,
    cfg: &BattleConfig,
)
    requires
        cfg.wf(),
        units_wf(old(units)@, *cfg),
        old(cache).wf(old(units)@),
        forall|t: int| 0 <= t < old(cache).damage_to_unit@.len() ==> #[trigger] old(cache).damage_to_unit@[t] == 0,
        rolls@.len() == old(units)@.len(),
    ensures
        final(cache).entries@ == old(cache).entries@,
        final(cache).wf(final(units)@),
        units_wf(final(units)@, *cfg),
        final(units)@ == combat_pass(old(units)@, old(cache).entries@, *cfg),
        final(cache).damage_to_unit@ == queued_damages(old(units)@, old(cache).entries@, rolls@, *cfg),
{
    let ghost old_units = units@;
    let ghost entries = cache.entries@;
    let n = cache.entries.len();
    let mut i: usize = 0;
    while i < n
        invariant
            cfg.wf(),
            n == entries.len(),
            i <= n,
            entries == cache.entries@,
            units@.len() == old_units.len(),
            units_wf(old_units, *cfg),
            units_wf(units@, *cfg),
            cache.wf(units@),
            cache.wf(old_units),
            rolls@.len() == old_units.len(),
            forall|k: int| 0 <= k < old_units.len() ==> #[trigger] units@[k] == match entry_for(entries, i as int, k) {
                Some(j) => resolve_unit_spec(old_units[k], entries, j, *cfg),
                None => old_units[k],
            },
            forall|t: int| 0 <= t < n ==> #[trigger] cache.damage_to_unit@[t] == capped(
                damage_total(old_units, entries, rolls@, *cfg, i as int, t),
            ),
        decreases n - i,
    {
        let e = cache.entries[i];
        let k = e.unit;
        proof {
            assert(entries[i as int] == e);
            assert forall|j: int| 0 <= j < i implies (#[trigger] entries[j]).unit < k by {}
            lemma_entry_for_none(entries, i as int, k as int);
            assert(units@[k as int] == old_units[k as int]);
            assert(old_units[k as int].wf(*cfg));
        }
        let mut u = units[k];
        let target = find_nearest_enemy(cache, e.x, e.y, e.side, cfg.attack_range);
        let ghost target_spec = match target { Some(t) => Some(t as int), None => None::<int> };
        assert(target_spec == crate::combat::target_of(entries, i as int, *cfg));
        let ghost before = u;
        if u.is_stunned {
            u.stun_duration = u.stun_duration - cfg.tick_millis;
            if u.stun_duration <= 0 {
                u.is_stunned = false;
                u.stun_duration = 0;
            }
        } else {
            let left = u.attack_cooldown - cfg.tick_millis;
            u.attack_cooldown = if left < -MAX_TIMER_MS { -MAX_TIMER_MS } else { left };
            match target {
                Some(t) => {
                    u.target_unit_id = Some(cache.entries[t].id);
                    if u.attack_cooldown <= 0 {
                        let is_crit = rolls[k] < u.crit_chance;
                        let damage = calculate_damage(
                            u.attack,
                            cache.entries[t].defense,
                            u.crit_damage,
                            is_crit,
                            cfg.min_damage,
                        );
                        let queued = cache.damage_to_unit[t].saturating_add(damage);
                        cache.damage_to_unit[t] = queued;
                        let gained = u.current_mana.saturating_add(u.mana_per_attack);
                        u.current_mana = if gained > u.max_mana { u.max_mana } else { gained };
                        u.attack_cooldown = (100_000u32 / u.attack_speed) as i64;
                        if u.current_mana >= cfg.ability_mana_threshold && !u.ability_ready {
                            u.ability_ready = true;
                        }
                    }
                },
                None => {
                    u.target_unit_id = None;
                },
            }
        }
        assert(u == resolve_unit_spec(before, entries, i as int, *cfg));
        units[k] = u;
        proof {
            assert forall|t: int| 0 <= t < n implies #[trigger] cache.damage_to_unit@[t] == capped(
                damage_total(old_units, entries, rolls@, *cfg, i as int + 1, t),
            ) by {
                lemma_damage_total_nonneg(old_units, entries, rolls@, *cfg, i as int, t);
            }
            assert forall|k2: int| 0 <= k2 < old_units.len() implies #[trigger] units@[k2] == match entry_for(entries, i as int + 1, k2) {
                Some(j) => resolve_unit_spec(old_units[k2], entries, j, *cfg),
                None => old_units[k2],
            } by {}
            assert(units_wf(units@, *cfg));
        }
        i = i + 1;
    }
    assert(units@ =~= combat_pass(old_units, entries, *cfg));
    assert(cache.damage_to_unit@ =~= queued_damages(old_units, entries, rolls@, *cfg));
}

/// A unit after taking `damage`: its hp drops by it, and not below zero.
pub open spec fn after_damage(u: BattleUnit, damage: u32) -> BattleUnit {
    BattleUnit { current_hp: if u.current_hp > damage { (u.current_hp - damage) as u32 } else { 0 }, ..u }
}

/// Applies every queued damage at once. A unit that reaches 0 hp is dead;
/// its record stays in the list.
pub fn commit_damage_and_check_deaths(units: &mut Vec<BattleUnit>, cache: &BattleCollisionCache, cfg: &BattleConfig)
    requires
        units_wf(old(units)@, *cfg),
        cache.wf(old(units)@),
    ensures
        units_wf(final(units)@, *cfg),
        final(units)@ == commit_pass(old(units)@, cache.entries@, cache.damage_to_unit@),
{
    let ghost old_units = units@;
    let ghost entries = cache.entries@;
    let n = cache.entries.len();
    let mut i: usize = 0;
    while i < n
        invariant
            n == entries.len(),
            i <= n,
            entries == cache.entries@,
            cache.wf(old_units),
            units@.len() == old_units.len(),
            units_wf(old_units, *cfg),
            units_wf(units@, *cfg),
            forall|k: int| 0 <= k < old_units.len() ==> #[trigger] units@[k] == match entry_for(entries, i as int, k) {
                Some(j) => after_damage(old_units[k], cache.damage_to_unit@[j]),
                None => old_units[k],
            },
        decreases n - i,
    {
        let e = cache.entries[i];
        let k = e.unit;
        proof {
            assert(entries[i as int] == e);
            assert forall|j: int| 0 <= j < i implies (#[trigger] entries[j]).unit < k by {}
            lemma_entry_for_none(entries, i as int, k as int);
            assert(old_units[k as int].wf(*cfg));
        }
        let damage = cache.damage_to_unit[i];
        let mut u = units[k];
        if u.current_hp > damage {
            u.current_hp = u.current_hp - damage;
        } else {
            u.current_hp = 0;
        }
        units[k] = u;
        proof {
            assert forall|k2: int| 0 <= k2 < old_units.len() implies #[trigger] units@[k2] == match entry_for(entries, i as int + 1, k2) {
                Some(j) => after_damage(old_units[k2], cache.damage_to_unit@[j]),
                None => old_units[k2],
            } by {}
            assert(units_wf(units@, *cfg));
        }
        i = i + 1;
    }
    assert(units@ =~= commit_pass(old_units, entries, cache.damage_to_unit@));
}

} // verus!
