use vstd::prelude::*;
use spacetimedb::Identity;
use crate::config::{BattleConfig, MAX_COORD, MAX_TIMER_MS};

verus! {

/// spacetimedb's `Identity` of a player, carried through battles as an opaque value.
#[verifier::external_type_specification]
#[verifier::external_body]
pub struct ExIdentity(Identity);

/// Relies on the derived `PartialEq` of `Identity`: two identities compare
/// equal exactly when they are the same value.
pub assume_specification[ <Identity as PartialEq>::eq ](a: &Identity, b: &Identity) -> (r: bool)
    ensures
        r == (*a == *b),
;

/// A combatant of one battle, created once from a roster entry.
/// Positions are in arena units; timers are in milliseconds; fractional
/// stats are in hundredths (see `BattleConfig`).
#[derive(Clone, Copy, Debug)]
pub struct BattleUnit {
    pub id: u64,
    pub battle_id: u64,
    /// The roster entry this unit was made from.
    pub crew_id: u64,
    pub owner: Identity,
    /// 0 or 1.
    pub side: u8,
    pub x: i64,
    pub y: i64,
    /// Velocity; movement sets positions directly and leaves it at zero.
    pub velocity_x: i64,
    pub velocity_y: i64,
    pub radius: i64,
    pub max_hp: u32,
    pub current_hp: u32,
    pub attack: u32,
    pub defense: u32,
    pub ability_power: u32,
    pub magic_resist: u32,
    pub attack_speed: u32,
    pub crit_chance: u32,
    pub crit_damage: u32,
    pub max_mana: u32,
    pub current_mana: u32,
    pub mana_per_attack: u32,
    /// Time until the next attack; zero or less means ready.
    pub attack_cooldown: i64,
    pub target_unit_id: Option<u64>,
    pub ability_ready: bool,
    pub ability_cooldown: i64,
    pub is_stunned: bool,
    pub stun_duration: i64,
}

impl BattleUnit {
    /// hp and mana stay within their pools.
    pub open spec fn pools_bounded(&self) -> bool {
        &&& self.current_hp <= self.max_hp
        &&& self.current_mana <= self.max_mana
    }

    /// The unit's invariant under a configuration.
    pub open spec fn wf(&self, cfg: BattleConfig) -> bool {
        &&& self.pools_bounded()
        &&& self.side <= 1
        &&& 0 < self.radius
        &&& 2 * self.radius <= cfg.arena_size
        &&& 0 <= self.x <= MAX_COORD
        &&& 0 <= self.y <= MAX_COORD
        &&& 0 < self.attack_speed
        &&& -MAX_TIMER_MS <= self.attack_cooldown <= MAX_TIMER_MS
        &&& -MAX_TIMER_MS <= self.stun_duration <= MAX_TIMER_MS
    }

    /// Whether the unit satisfies its invariant under `cfg`.
    pub fn check_wf(&self, cfg: &BattleConfig) -> (r: bool)
        ensures
            r == self.wf(*cfg),
    {
        self.current_hp <= self.max_hp && self.current_mana <= self.max_mana && self.side <= 1 && 0 < self.radius
            && self.radius <= cfg.arena_size / 2 && 0 <= self.x && self.x <= MAX_COORD && 0 <= self.y
            && self.y <= MAX_COORD && 0 < self.attack_speed && -MAX_TIMER_MS <= self.attack_cooldown
            && self.attack_cooldown <= MAX_TIMER_MS && -MAX_TIMER_MS <= self.stun_duration
            && self.stun_duration <= MAX_TIMER_MS
    }

    /// A unit with no hp left is dead for the rest of the battle.
    pub open spec fn is_alive(&self) -> bool {
        self.current_hp > 0
    }
}

/// Every unit of the sequence satisfies its invariant.
pub open spec fn units_wf(units: Seq<BattleUnit>, cfg: BattleConfig) -> bool {
    forall|i: int| 0 <= i < units.len() ==> #[trigger] units[i].wf(cfg)
}

} // verus!
