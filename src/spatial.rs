use vstd::prelude::*;
use crate::config::{BattleConfig, MAX_COORD};
use crate::unit::{BattleUnit, units_wf};

verus! {

/// Cell index of one axis: the coordinate over the cell size, clamped to the grid.
pub open spec fn axis_cell(v: int, cell_size: int, cells: int) -> int {
    if v < 0 {
        0
    } else if v / cell_size > cells - 1 {
        cells - 1
    } else {
        v / cell_size
    }
}

/// Grid cell of a position: `row * width + column`, both clamped to the grid.
pub open spec fn grid_cell_spec(cfg: BattleConfig, x: int, y: int) -> int {
    axis_cell(y, cfg.grid_cell_size as int, cfg.grid_height as int) * cfg.grid_width
        + axis_cell(x, cfg.grid_cell_size as int, cfg.grid_width as int)
}

fn axis_cell_of(v: i64, cell_size: i64, cells: i64) -> (r: i64)
    requires
        0 < cell_size,
        0 < cells,
    ensures
        r == axis_cell(v as int, cell_size as int, cells as int),
        0 <= r < cells,
{
    if v < 0 {
        0
    } else if v / cell_size > cells - 1 {
        cells - 1
    } else {
        v / cell_size
    }
}

impl BattleConfig {
    /// Grid cell of a position under this configuration.
    pub fn grid_cell(&self, x: i64, y: i64) -> (r: u16)
        requires
            self.wf(),
        ensures
            r == grid_cell_spec(*self, x as int, y as int),
            r < self.grid_width * self.grid_height,
    {
        let cx = axis_cell_of(x, self.grid_cell_size, self.grid_width);
        let cy = axis_cell_of(y, self.grid_cell_size, self.grid_height);
        assert(0 <= cy * self.grid_width + cx < self.grid_width * self.grid_height) by (nonlinear_arith)
            requires
                0 <= cx < self.grid_width,
                0 <= cy < self.grid_height,
        ;
        (cy * self.grid_width + cx) as u16
    }
}

/// Grid cell of a position with the standard cell size (200) and grid (8 by 8).
pub fn get_grid_cell(x: i64, y: i64) -> (r: u16)
    ensures
        r == grid_cell_spec(BattleConfig::standard_spec(), x as int, y as int),
{
    BattleConfig::standard().grid_cell(x, y)
}

/// Whether two circles overlap: their centres are closer than the sum of the radii.
pub fn circle_collision(ax: i64, ay: i64, ar: i64, bx: i64, by: i64, br: i64) -> (r: bool)
    requires
        0 <= ax <= MAX_COORD,
        0 <= ay <= MAX_COORD,
        0 <= bx <= MAX_COORD,
        0 <= by <= MAX_COORD,
        0 <= ar <= MAX_COORD,
        0 <= br <= MAX_COORD,
    ensures
        r == ((ax - bx) * (ax - bx) + (ay - by) * (ay - by) < (ar + br) * (ar + br)),
{
    let dx = ax - bx;
    let dy = ay - by;
    let min_dist = ar + br;
    assert(0 <= dx * dx <= MAX_COORD * MAX_COORD) by (nonlinear_arith)
        requires -MAX_COORD <= dx <= MAX_COORD;
    assert(0 <= dy * dy <= MAX_COORD * MAX_COORD) by (nonlinear_arith)
        requires -MAX_COORD <= dy <= MAX_COORD;
    assert(0 <= min_dist * min_dist <= 4 * MAX_COORD * MAX_COORD) by (nonlinear_arith)
        requires 0 <= min_dist <= 2 * MAX_COORD;
    dx * dx + dy * dy < min_dist * min_dist
}

/// What the spatial index records of one living unit, as it stood when the
/// index was built.
#[derive(Clone, Copy, Debug)]
pub struct CacheEntry {
    /// Position of the unit in the battle's unit list.
    pub unit: usize,
    pub id: u64,
    pub x: i64,
    pub y: i64,
    pub radius: i64,
    pub side: u8,
    pub current_hp: u32,
    pub defense: u32,
    pub cell: u16,
}

/// The record of one unit.
pub open spec fn entry_of(u: BattleUnit, index: int, cfg: BattleConfig) -> CacheEntry {
    CacheEntry {
        unit: index as usize,
        id: u.id,
        x: u.x,
        y: u.y,
        radius: u.radius,
        side: u.side,
        current_hp: u.current_hp,
        defense: u.defense,
        cell: grid_cell_spec(cfg, u.x as int, u.y as int) as u16,
    }
}

/// The records of the living units, in list order.
pub open spec fn index_entries(units: Seq<BattleUnit>, cfg: BattleConfig) -> Seq<CacheEntry>
    decreases units.len(),
{
    if units.len() == 0 {
        Seq::empty()
    } else {
        let rest = index_entries(units.drop_last(), cfg);
        if units.last().current_hp > 0 {
            rest.push(entry_of(units.last(), units.len() - 1, cfg))
        } else {
            rest
        }
    }
}

/// The spatial index of one battle for one tick: a record of every living
/// unit with its grid cell, and the damage queued against each during the tick.
pub struct BattleCollisionCache {
    pub entries: Vec<CacheEntry>,
    /// Damage queued against the unit of the entry with the same position.
    pub damage_to_unit: Vec<u32>,
}

impl BattleCollisionCache {
    /// An index that holds no unit.
    pub fn new() -> (r: BattleCollisionCache)
        ensures
            r.entries@.len() == 0,
            r.damage_to_unit@.len() == 0,
    {
        BattleCollisionCache { entries: Vec::new(), damage_to_unit: Vec::new() }
    }

    /// Drops every record and every queued damage.
    pub fn clear(&mut self)
        ensures
            final(self).entries@.len() == 0,
            final(self).damage_to_unit@.len() == 0,
    {
        self.entries = Vec::new();
        self.damage_to_unit = Vec::new();
    }

    /// Records and queued damage line up, and every record is that of a
    /// living unit at the position it names, each position at most once.
    pub open spec fn wf(&self, units: Seq<BattleUnit>) -> bool {
        &&& self.damage_to_unit@.len() == self.entries@.len()
        &&& forall|i: int| 0 <= i < self.entries@.len() ==> {
            &&& (#[trigger] self.entries@[i]).unit < units.len()
            &&& self.entries@[i].current_hp > 0
            &&& self.entries@[i].side <= 1
            &&& 0 <= self.entries@[i].x <= MAX_COORD
            &&& 0 <= self.entries@[i].y <= MAX_COORD
        }
        &&& forall|i: int, j: int|
            0 <= i < j < self.entries@.len() ==> self.entries@[i].unit < self.entries@[j].unit
    }
}

/// Fills the index from scratch with the battle's living units.
pub fn build_collision_cache(units: &Vec<BattleUnit>, cfg: &BattleConfig, cache: &mut BattleCollisionCache)
    requires
        cfg.wf(),
        units_wf(units@, *cfg),
    ensures
        final(cache).entries@ == index_entries(units@, *cfg),
        forall|t: int| 0 <= t < final(cache).damage_to_unit@.len() ==> #[trigger] final(cache).damage_to_unit@[t] == 0,
        final(cache).wf(units@),
{
    cache.clear();
    let mut k: usize = 0;
    while k < units.len()
        invariant
            cfg.wf(),
            units_wf(units@, *cfg),
            k <= units@.len(),
            cache.entries@ == index_entries(units@.take(k as int), *cfg),
            forall|t: int| 0 <= t < cache.damage_to_unit@.len() ==> #[trigger] cache.damage_to_unit@[t] == 0,
            cache.entries@.len() <= k,
            cache.wf(units@),
            forall|i: int| 0 <= i < cache.entries@.len() ==> #[trigger] cache.entries@[i].unit < k,
        decreases units@.len() - k,
    {
        let u = units[k];
        assert(units@.take(k as int + 1).drop_last() == units@.take(k as int));
        if u.current_hp > 0 {
            let cell = cfg.grid_cell(u.x, u.y);
            assert(units@[k as int].wf(*cfg));
            cache.entries.push(CacheEntry {
                unit: k,
                id: u.id,
                x: u.x,
                y: u.y,
                radius: u.radius,
                side: u.side,
                current_hp: u.current_hp,
                defense: u.defense,
                cell,
            });
            cache.damage_to_unit.push(0);
        }
        k = k + 1;
    }
    assert(units@.take(units@.len() as int) == units@);
}

/// Squared distance from a record to a point.
pub open spec fn dist2(e: CacheEntry, x: int, y: int) -> int {
    (e.x - x) * (e.x - x) + (e.y - y) * (e.y - y)
}

/// A living enemy of `side` within `range` of the point.
pub open spec fn is_candidate(e: CacheEntry, x: int, y: int, side: u8, range: int) -> bool {
    &&& e.side != side
    &&& e.current_hp > 0
    &&& dist2(e, x, y) <= range * range
}

/// `t` is the nearest candidate among the first `n` records; on a tie the
/// earlier record wins.
pub open spec fn is_nearest(entries: Seq<CacheEntry>, n: int, t: int, x: int, y: int, side: u8, range: int) -> bool {
    &&& 0 <= t < n
    &&& is_candidate(entries[t], x, y, side, range)
    &&& forall|j: int|
        0 <= j < n && is_candidate(#[trigger] entries[j], x, y, side, range) ==> dist2(entries[t], x, y)
            <= dist2(entries[j], x, y)
    &&& forall|j: int|
        0 <= j < t && is_candidate(#[trigger] entries[j], x, y, side, range) ==> dist2(entries[t], x, y)
            < dist2(entries[j], x, y)
}

/// The nearest candidate among the records, if there is one.
pub open spec fn nearest_spec(entries: Seq<CacheEntry>, x: int, y: int, side: u8, range: int) -> Option<int> {
    if exists|t: int| is_nearest(entries, entries.len() as int, t, x, y, side, range) {
        Some(choose|t: int| is_nearest(entries, entries.len() as int, t, x, y, side, range))
    } else {
        None
    }
}

/// At most one record is the nearest.
pub proof fn lemma_nearest_unique(entries: Seq<CacheEntry>, n: int, t1: int, t2: int, x: int, y: int, side: u8, range: int)
    requires
        is_nearest(entries, n, t1, x, y, side, range),
        is_nearest(entries, n, t2, x, y, side, range),
    ensures
        t1 == t2,
{
    if t1 < t2 {
        assert(is_candidate(entries[t1], x, y, side, range));
    } else if t2 < t1 {
        assert(is_candidate(entries[t2], x, y, side, range));
    }
}

/// The index is rebuilt from scratch: two builds from the same units hold
/// the same records, so every nearest-enemy query answers the same on both.
/// `find_nearest_enemy` answers `nearest_spec` for every point, side and
/// range, so this holds of its results too.
pub proof fn lemma_rebuild_idempotent(
    units: Seq<BattleUnit>,
    cfg: BattleConfig,
    first: Seq<CacheEntry>,
    second: Seq<CacheEntry>,
    x: int,
    y: int,
    side: u8,
    range: int,
)
    requires
        first == index_entries(units, cfg),
        second == index_entries(units, cfg),
    ensures
        first == second,
        nearest_spec(first, x, y, side, range) == nearest_spec(second, x, y, side, range),
{
}

fn abs_diff(a: i64, b: i64) -> (r: u128)
    ensures
        r == if a >= b { a - b } else { b - a },
        r <= 0x1_0000_0000_0000_0000,
{
    let d = a as i128 - b as i128;
    if d >= 0 { d as u128 } else { (-d) as u128 }
}

/// The squared distance from a record to a point if it is within `reach`
/// on both axes (`reach` at most 2^63), and `None` otherwise, in which case
/// the record is farther than `reach`.
fn dist2_within(e: &CacheEntry, x: i64, y: i64, reach: u128) -> (r: Option<u128>)
    requires
        reach <= 0x8000_0000_0000_0000,
    ensures
        r matches Some(d) ==> d == dist2(*e, x as int, y as int),
        r is None ==> dist2(*e, x as int, y as int) > reach * reach,
{
    let dx = abs_diff(e.x, x);
    let dy = abs_diff(e.y, y);
    let ghost (sx, sy) = ((e.x - x) as int, (e.y - y) as int);
    assert(dx * dx == sx * sx && dy * dy == sy * sy) by (nonlinear_arith)
        requires dx == sx || dx == -sx, dy == sy || dy == -sy;
    assert(0 <= sx * sx && 0 <= sy * sy) by (nonlinear_arith);
    if dx > reach {
        assert(dx * dx > reach * reach) by (nonlinear_arith)
            requires dx > reach, reach >= 0;
        return None;
    }
    if dy > reach {
        assert(dy * dy > reach * reach) by (nonlinear_arith)
            requires dy > reach, reach >= 0;
        return None;
    }
    assert(dx * dx <= 0x4000_0000_0000_0000_0000_0000_0000_0000 && dy * dy <= 0x4000_0000_0000_0000_0000_0000_0000_0000)
        by (nonlinear_arith)
        requires dx <= reach, dy <= reach, reach <= 0x8000_0000_0000_0000;
    Some(dx * dx + dy * dy)
}

/// The record of the nearest living enemy of `my_side` within `max_range`
/// of the point; among enemies at the same distance, the first record.
pub fn find_nearest_enemy(
    cache: &BattleCollisionCache,
    pos_x: i64,
    pos_y: i64,
    my_side: u8,
    max_range: i64,
) -> (r: Option<usize>)
    ensures
        r matches Some(t) ==> is_nearest(cache.entries@, cache.entries@.len() as int, t as int, pos_x as int, pos_y as int, my_side, max_range as int),
        r is None ==> forall|j: int|
            0 <= j < cache.entries@.len() ==> !is_candidate(#[trigger] cache.entries@[j], pos_x as int, pos_y as int, my_side, max_range as int),
        r matches Some(t) ==> nearest_spec(cache.entries@, pos_x as int, pos_y as int, my_side, max_range as int) == Some(t as int),
        r is None ==> nearest_spec(cache.entries@, pos_x as int, pos_y as int, my_side, max_range as int) is None,
{
    let ghost entries = cache.entries@;
    let ghost (x, y, range) = (pos_x as int, pos_y as int, max_range as int);
    let reach = abs_diff(max_range, 0);
    assert(reach * reach == range * range) by (nonlinear_arith)
        requires reach == range || reach == -range;
    assert(reach * reach <= 0x4000_0000_0000_0000_0000_0000_0000_0000) by (nonlinear_arith)
        requires reach <= 0x8000_0000_0000_0000;
    let max_range_sq = reach * reach;
    let mut nearest_idx: Option<usize> = None;
    let mut nearest_dist_sq: u128 = 0;
    let mut i: usize = 0;
    while i < cache.entries.len()
        invariant
            entries == cache.entries@,
            x == pos_x, y == pos_y, range == max_range,
            max_range_sq == range * range,
            max_range_sq == reach * reach,
            reach <= 0x8000_0000_0000_0000,
            i <= entries.len(),
            nearest_idx matches Some(t) ==> is_nearest(entries, i as int, t as int, x, y, my_side, range)
                && nearest_dist_sq == dist2(entries[t as int], x, y),
            nearest_idx is None ==> forall|j: int|
                0 <= j < i ==> !is_candidate(#[trigger] entries[j], x, y, my_side, range),
        decreases entries.len() - i,
    {
        let e = &cache.entries[i];
        if e.side != my_side && e.current_hp != 0 {
            match dist2_within(e, pos_x, pos_y, reach) {
                Some(dist_sq) => {
                    let closer = match nearest_idx {
                        None => true,
                        Some(_) => dist_sq < nearest_dist_sq,
                    };
                    if closer && dist_sq <= max_range_sq {
                        nearest_dist_sq = dist_sq;
                        nearest_idx = Some(i);
                    }
                },
                None => {},
            }
        }
        i = i + 1;
    }
    proof {
        match nearest_idx {
            Some(t) => {
                let n = entries.len() as int;
                assert(is_nearest(entries, n, t as int, x, y, my_side, range));
                let c = choose|c: int| is_nearest(entries, n, c, x, y, my_side, range);
                lemma_nearest_unique(entries, n, c, t as int, x, y, my_side, range);
            },
            None => {
                assert forall|t: int| !is_nearest(entries, entries.len() as int, t, x, y, my_side, range) by {
                    if 0 <= t < entries.len() {
                        assert(!is_candidate(entries[t], x, y, my_side, range));
                    }
                }
            },
        }
    }
    nearest_idx
}

} // verus!
