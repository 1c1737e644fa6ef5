use vstd::prelude::*;
use crate::combat::{entry_for, target_of};
use crate::config::{BattleConfig, MAX_COORD};
use crate::spatial::{BattleCollisionCache, CacheEntry, find_nearest_enemy, nearest_spec};
use crate::unit::{BattleUnit, units_wf};

verus! {

/// `r` is the integer square root of `n`: the largest `r` with `r * r <= n`.
pub open spec fn is_isqrt(r: int, n: int) -> bool {
    0 <= r && r * r <= n && n < (r + 1) * (r + 1)
}

/// The integer square root of `n`.
pub open spec fn isqrt_spec(n: int) -> int {
    choose|r: int| is_isqrt(r, n)
}

proof fn lemma_isqrt_unique(r1: int, r2: int, n: int)
    requires
        is_isqrt(r1, n),
        is_isqrt(r2, n),
    ensures
        r1 == r2,
{
    if r1 < r2 {
        assert((r1 + 1) * (r1 + 1) <= r2 * r2) by (nonlinear_arith)
            requires 0 <= r1 < r2;
    } else if r2 < r1 {
        assert((r2 + 1) * (r2 + 1) <= r1 * r1) by (nonlinear_arith)
            requires 0 <= r2 < r1;
    }
}

/// Integer square root of a squared distance within the arena's bounds.
fn isqrt(n: i64) -> (r: i64)
    requires
        0 <= n <= 2 * MAX_COORD * MAX_COORD,
    ensures
        r == isqrt_spec(n as int),
        is_isqrt(r as int, n as int),
{
    let mut lo: i64 = 0;
    let mut hi: i64 = 2 * MAX_COORD;
    assert(n < hi * hi) by (nonlinear_arith)
        requires n <= 2 * MAX_COORD * MAX_COORD, hi == 2 * MAX_COORD;
    while hi - lo > 1
        invariant
            0 <= lo < hi <= 2 * MAX_COORD,
            lo * lo <= n,
            n < hi * hi,
        decreases hi - lo,
    {
        let mid = lo + (hi - lo) / 2;
        assert(0 <= mid * mid <= 4 * MAX_COORD * MAX_COORD) by (nonlinear_arith)
            requires 0 <= mid <= 2 * MAX_COORD;
        if mid * mid <= n {
            lo = mid;
        } else {
            hi = mid;
        }
    }
    proof {
        assert(is_isqrt(lo as int, n as int));
        lemma_isqrt_unique(lo as int, isqrt_spec(n as int), n as int);
    }
    lo
}

/// The share of `step` along an axis whose offset is `d`, out of a distance
/// `dist`, rounded towards zero.
pub open spec fn toward(d: int, step: int, dist: int) -> int {
    if d >= 0 { d * step / dist } else { -((-d) * step / dist) }
}

/// `v` brought into `[lo, hi]`.
pub open spec fn clamp_spec(v: int, lo: int, hi: int) -> int {
    if v < lo { lo } else if v > hi { hi } else { v }
}

/// The record the unit of record `j` walks towards: the nearest living enemy
/// within the search range of where it stood.
pub open spec fn move_target_of(entries: Seq<CacheEntry>, j: int, cfg: BattleConfig) -> Option<int> {
    nearest_spec(entries, entries[j].x as int, entries[j].y as int, entries[j].side, cfg.move_search_range as int)
}

/// The unit of record `j` after its movement step. A unit with an enemy in
/// attack range holds its position. Any other whose nearest enemy is
/// farther than the engagement range walks one step's length towards it,
/// and stays at least its radius inside the arena.
pub open spec fn moved_unit_spec(u: BattleUnit, entries: Seq<CacheEntry>, j: int, cfg: BattleConfig) -> BattleUnit {
    if target_of(entries, j, cfg) is Some {
        u
    } else {
        walked_unit_spec(u, entries, j, cfg)
    }
}

/// The unit of record `j` after walking towards its nearest enemy, if that
/// one is beyond the engagement range.
pub open spec fn walked_unit_spec(u: BattleUnit, entries: Seq<CacheEntry>, j: int, cfg: BattleConfig) -> BattleUnit {
    match move_target_of(entries, j, cfg) {
        Some(t) => {
            let dx = entries[t].x - entries[j].x;
            let dy = entries[t].y - entries[j].y;
            let d2 = dx * dx + dy * dy;
            if d2 > cfg.engagement_range * cfg.engagement_range {
                let dist = isqrt_spec(d2);
                let hi = cfg.arena_size - u.radius;
                BattleUnit {
                    x: clamp_spec(u.x + toward(dx, cfg.step_length(), dist), u.radius as int, hi) as i64,
                    y: clamp_spec(u.y + toward(dy, cfg.step_length(), dist), u.radius as int, hi) as i64,
                    ..u
                }
            } else {
                u
            }
        },
        None => u,
    }
}

/// The unit list after every indexed unit's movement step.
pub open spec fn movement_pass(units: Seq<BattleUnit>, entries: Seq<CacheEntry>, cfg: BattleConfig) -> Seq<BattleUnit> {
    Seq::new(units.len(), |k: int| match entry_for(entries, entries.len() as int, k) {
        Some(j) => moved_unit_spec(units[k], entries, j, cfg),
        None => units[k],
    })
}

fn toward_of(d: i64, step: i64, dist: i64) -> (r: i64)
    requires
        -MAX_COORD <= d <= MAX_COORD,
        0 <= step <= 1_000_000_000,
        0 < dist,
    ensures
        r == toward(d as int, step as int, dist as int),
        -1_000_000_000_000_000 <= r <= 1_000_000_000_000_000,
{
    let m = if d >= 0 { d } else { -d };
    assert(0 <= m * step <= 1_000_000_000_000_000) by (nonlinear_arith)
        requires 0 <= m <= MAX_COORD, 0 <= step <= 1_000_000_000;
    let p = m * step;
    let q = p / dist;
    assert(0 <= q <= p) by (nonlinear_arith)
        requires 0 <= p, 0 < dist, q == p / dist;
    if d >= 0 { q } else { -q }
}

fn clamp_of(v: i64, lo: i64, hi: i64) -> (r: i64)
    requires
        lo <= hi,
    ensures
        r == clamp_spec(v as int, lo as int, hi as int),
        lo <= r <= hi,
{
    if v < lo { lo } else if v > hi { hi } else { v }
}

/// Moves every indexed unit that has no enemy in attack range, and whose
/// nearest enemy (looked up in the index's snapshot) is out of engagement
/// range, one step towards that enemy.
pub fn process_unit_movement(units: &mut Vec<BattleUnit>, cache: &BattleCollisionCache, cfg: &BattleConfig)
    requires
        cfg.wf(),
        units_wf(old(units)@, *cfg),
        cache.wf(old(units)@),
    ensures
        units_wf(final(units)@, *cfg),
        final(units)@ == movement_pass(old(units)@, cache.entries@, *cfg),
{
    let ghost old_units = units@;
    let ghost entries = cache.entries@;
    let n = cache.entries.len();
    assert(0 <= cfg.move_speed * cfg.tick_millis <= MAX_COORD * MAX_COORD) by (nonlinear_arith)
        requires 0 <= cfg.move_speed <= MAX_COORD, 0 < cfg.tick_millis <= MAX_COORD;
    let step = cfg.move_speed * cfg.tick_millis / 1000;
    assert(step <= 1_000_000_000) by (nonlinear_arith)
        requires step == cfg.move_speed * cfg.tick_millis / 1000, cfg.move_speed * cfg.tick_millis <= MAX_COORD * MAX_COORD;
    let mut i: usize = 0;
    while i < n
        invariant
            cfg.wf(),
            n == entries.len(),
            i <= n,
            entries == cache.entries@,
            step == cfg.step_length(),
            0 <= step <= 1_000_000_000,
            cache.wf(old_units),
            units@.len() == old_units.len(),
            units_wf(old_units, *cfg),
            units_wf(units@, *cfg),
            forall|k: int| 0 <= k < old_units.len() ==> #[trigger] units@[k] == match entry_for(entries, i as int, k) {
                Some(j) => moved_unit_spec(old_units[k], entries, j, *cfg),
                None => old_units[k],
            },
        decreases n - i,
    {
        let e = cache.entries[i];
        let k = e.unit;
        proof {
            assert(entries[i as int] == e);
            assert forall|j: int| 0 <= j < i implies (#[trigger] entries[j]).unit < k by {}
            crate::combat::lemma_entry_for_none(entries, i as int, k as int);
            assert(old_units[k as int].wf(*cfg));
        }
        let mut u = units[k];
        let ghost before = u;
        let in_range = find_nearest_enemy(cache, e.x, e.y, e.side, cfg.attack_range);
        let target = if in_range.is_some() {
            None
        } else {
            find_nearest_enemy(cache, e.x, e.y, e.side, cfg.move_search_range)
        };
        match target {
            Some(t) => {
                let dx = cache.entries[t].x - e.x;
                let dy = cache.entries[t].y - e.y;
                assert(0 <= dx * dx <= MAX_COORD * MAX_COORD) by (nonlinear_arith)
                    requires -MAX_COORD <= dx <= MAX_COORD;
                assert(0 <= dy * dy <= MAX_COORD * MAX_COORD) by (nonlinear_arith)
                    requires -MAX_COORD <= dy <= MAX_COORD;
                assert(0 <= cfg.engagement_range * cfg.engagement_range <= MAX_COORD * MAX_COORD) by (nonlinear_arith)
                    requires 0 <= cfg.engagement_range <= MAX_COORD;
                let d2 = dx * dx + dy * dy;
                if d2 > cfg.engagement_range * cfg.engagement_range {
                    let dist = isqrt(d2);
                    assert(dist > 0) by (nonlinear_arith)
                        requires is_isqrt(dist as int, d2 as int), d2 > 0;
                    let hi = cfg.arena_size - u.radius;
                    u.x = clamp_of(u.x + toward_of(dx, step, dist), u.radius, hi);
                    u.y = clamp_of(u.y + toward_of(dy, step, dist), u.radius, hi);
                }
            },
            None => {},
        }
        assert(u == moved_unit_spec(before, entries, i as int, *cfg));
        units[k] = u;
        proof {
            assert forall|k2: int| 0 <= k2 < old_units.len() implies #[trigger] units@[k2] == match entry_for(entries, i as int + 1, k2) {
                Some(j) => moved_unit_spec(old_units[k2], entries, j, *cfg),
                None => old_units[k2],
            } by {}
            assert(units_wf(units@, *cfg));
        }
        i = i + 1;
    }
    assert(units@ =~= movement_pass(old_units, entries, *cfg));
}

} // verus!
