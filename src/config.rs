use vstd::prelude::*;

verus! {

/// Largest coordinate, range or size the simulation accepts on either axis.
/// It keeps every squared distance well inside `i64`.
pub const MAX_COORD: i64 = 1_000_000;

/// Largest attack cooldown or stun timer, in milliseconds.
pub const MAX_TIMER_MS: i64 = 1_000_000_000;

/// Side length of the square arena.
pub const BATTLE_ARENA_SIZE: i64 = 1600;
/// Simulation steps per second.
pub const BATTLE_TICK_RATE: i64 = 20;
/// Length of one step in milliseconds (1000 / 20).
pub const TICK_MILLIS: i64 = 50;
/// Side length of one spatial-index cell.
pub const GRID_CELL_SIZE: i64 = 200;
/// Cells per row of the spatial index (1600 / 200).
pub const GRID_WIDTH: i64 = 8;
/// Cells per column of the spatial index.
pub const GRID_HEIGHT: i64 = 8;
/// Number of cells of the spatial index.
pub const NUM_GRID_CELLS: i64 = 64;
/// Most units one side brings into a battle.
pub const MAX_UNITS_PER_SIDE: usize = 15;
/// Most units of a battle, both sides together.
pub const MAX_TOTAL_UNITS: usize = 30;

/// The tunable constants of the simulation. Fractional quantities are held in
/// hundredths: an attack speed of `100` is one attack per second, a crit
/// damage of `150` multiplies by 1.5.
#[derive(Clone, Copy, Debug, PartialEq, Eq, Structural)]
pub struct BattleConfig {
    pub arena_size: i64,
    /// Length of one step, in milliseconds.
    pub tick_millis: i64,
    pub grid_cell_size: i64,
    pub grid_width: i64,
    pub grid_height: i64,
    /// Range within which a unit acquires a target to attack.
    pub attack_range: i64,
    /// Range within which a unit looks for an enemy to walk towards.
    pub move_search_range: i64,
    /// A unit closer than this to its nearest enemy holds its position.
    pub engagement_range: i64,
    /// Distance walked per second.
    pub move_speed: i64,
    pub unit_radius: i64,
    pub mana_per_attack: u32,
    /// Mana at which a unit's ability becomes ready.
    pub ability_mana_threshold: u32,
    /// Crit damage multiplier before items, in hundredths.
    pub base_crit_damage: u32,
    /// Attacks per second before items, in hundredths.
    pub base_attack_speed: u32,
    /// Mana pool before items.
    pub base_mana: u32,
    /// The least damage an attack deals.
    pub min_damage: u32,
}

impl BattleConfig {
    /// The bounds under which the simulation's arithmetic cannot overflow.
    pub open spec fn wf(&self) -> bool {
        &&& 0 < self.arena_size <= MAX_COORD
        &&& 0 < self.tick_millis <= MAX_COORD
        &&& 0 < self.grid_cell_size <= MAX_COORD
        &&& 0 < self.grid_width
        &&& 0 < self.grid_height
        &&& self.grid_width * self.grid_height <= 65536
        &&& 0 <= self.attack_range <= MAX_COORD
        &&& 0 <= self.move_search_range <= MAX_COORD
        &&& 0 <= self.engagement_range <= MAX_COORD
        &&& 0 <= self.move_speed <= MAX_COORD
        &&& 0 < self.unit_radius
        &&& 2 * self.unit_radius <= self.arena_size
        &&& 0 < self.base_attack_speed
    }

    /// The constants the game is played with.
    pub open spec fn standard_spec() -> BattleConfig {
        BattleConfig {
            arena_size: BATTLE_ARENA_SIZE,
            tick_millis: TICK_MILLIS,
            grid_cell_size: GRID_CELL_SIZE,
            grid_width: GRID_WIDTH,
            grid_height: GRID_HEIGHT,
            attack_range: 800,
            move_search_range: 2000,
            engagement_range: 600,
            move_speed: 100,
            unit_radius: 32,
            mana_per_attack: 20,
            ability_mana_threshold: 100,
            base_crit_damage: 150,
            base_attack_speed: 100,
            base_mana: 100,
            min_damage: 1,
        }
    }

    /// The constants the game is played with.
    pub fn standard() -> (r: BattleConfig)
        ensures
            r == BattleConfig::standard_spec(),
            r.wf(),
    {
        BattleConfig {
            arena_size: BATTLE_ARENA_SIZE,
            tick_millis: TICK_MILLIS,
            grid_cell_size: GRID_CELL_SIZE,
            grid_width: GRID_WIDTH,
            grid_height: GRID_HEIGHT,
            attack_range: 800,
            move_search_range: 2000,
            engagement_range: 600,
            move_speed: 100,
            unit_radius: 32,
            mana_per_attack: 20,
            ability_mana_threshold: 100,
            base_crit_damage: 150,
            base_attack_speed: 100,
            base_mana: 100,
            min_damage: 1,
        }
    }

    /// Distance walked in one step.
    pub open spec fn step_length(&self) -> int {
        self.move_speed * self.tick_millis / 1000
    }
}

} // verus!
