use vstd::prelude::*;
use spacetimedb::Identity;
use spacetimedb::rand::rngs::StdRng;
use crate::combat::{
    combat_pass, commit_damage_and_check_deaths, commit_pass, entry_for, process_unit_ai_and_combat,
    queued_damages,
};
use crate::config::{BattleConfig, MAX_UNITS_PER_SIDE};
use crate::items::{CompletedItemStats, ItemComponentStats};
use crate::movement::{movement_pass, process_unit_movement};
use crate::rng::draw_rolls;
use crate::spatial::{BattleCollisionCache, build_collision_cache, entry_of, index_entries};
use crate::stats::{Crew, ItemCatalog, UpgradeEffect, create_battle_unit, get_spawn_position, new_unit_spec, spawn_position_spec};
use crate::types::BattleStatus;
use crate::unit::{BattleUnit, units_wf};

verus! {

/// A battle between two players.
#[derive(Clone, Copy, Debug)]
pub struct Battle {
    pub id: u64,
    pub player1: Identity,
    /// Absent until a second player joins.
    pub player2: Option<Identity>,
    /// Set once the battle is finished.
    pub winner: Option<Identity>,
    pub status: BattleStatus,
    pub turn: u32,
    /// Bounty taken from the loser, once rewards are settled.
    pub bounty_reward: u32,
    /// Bounty of each player when it entered the battle.
    pub player1_bounty: u32,
    pub player2_bounty: u32,
}

impl Battle {
    /// A winner exactly when finished; a second player exactly once no
    /// longer waiting for one.
    pub open spec fn wf(&self) -> bool {
        &&& (self.winner is Some <==> self.status == BattleStatus::Finished)
        &&& (self.player2 is None <==> self.status == BattleStatus::WaitingForOpponent)
    }

    /// Whether the battle satisfies its invariant.
    pub fn check_wf(&self) -> (r: bool)
        ensures
            r == self.wf(),
    {
        (self.winner.is_some() == (self.status == BattleStatus::Finished))
            && (self.player2.is_none() == (self.status == BattleStatus::WaitingForOpponent))
    }

    /// A battle opened by `player1`, waiting for an opponent.
    pub fn new(id: u64, player1: Identity, player1_bounty: u32) -> (r: Battle)
        ensures
            r == (Battle {
                id,
                player1,
                player2: None,
                winner: None,
                status: BattleStatus::WaitingForOpponent,
                turn: 0,
                bounty_reward: 0,
                player1_bounty,
                player2_bounty: 0,
            }),
            r.wf(),
    {
        Battle {
            id,
            player1,
            player2: None,
            winner: None,
            status: BattleStatus::WaitingForOpponent,
            turn: 0,
            bounty_reward: 0,
            player1_bounty,
            player2_bounty: 0,
        }
    }

    /// A second player joins a waiting battle, which starts; the player's
    /// bounty at this moment is recorded. Returns whether it joined: a battle
    /// that is not waiting is left as it was.
    pub fn join(&mut self, player2: Identity, player2_bounty: u32) -> (r: bool)
        requires
            old(self).wf(),
        ensures
            r == (old(self).status == BattleStatus::WaitingForOpponent),
            r ==> *final(self) == (Battle {
                player2: Some(player2),
                status: BattleStatus::InProgress,
                player2_bounty,
                ..*old(self)
            }),
            !r ==> *final(self) == *old(self),
            final(self).wf(),
    {
        if self.status == BattleStatus::WaitingForOpponent {
            self.player2 = Some(player2);
            self.status = BattleStatus::InProgress;
            self.player2_bounty = player2_bounty;
            true
        } else {
            false
        }
    }
}

/// Some unit of `side` is alive.
pub open spec fn side_alive(units: Seq<BattleUnit>, side: u8) -> bool {
    exists|k: int| 0 <= k < units.len() && (#[trigger] units[k]).side == side && units[k].current_hp > 0
}

/// The battle after its end check: a battle in progress in which a side has
/// no living unit is finished. The other side's owner wins; if neither side
/// has a living unit, side 0's owner wins.
pub open spec fn end_check_spec(b: Battle, units: Seq<BattleUnit>) -> Battle {
    let alive0 = side_alive(units, 0);
    let alive1 = side_alive(units, 1);
    if b.status == BattleStatus::InProgress && !(alive0 && alive1) {
        Battle {
            status: BattleStatus::Finished,
            winner: if !alive0 && alive1 { b.player2 } else { Some(b.player1) },
            ..b
        }
    } else {
        b
    }
}

/// A battle in progress whose side 0 has no living unit while side 1 has
/// one is finished, won by side 1's owner.
pub proof fn lemma_side_one_wins(b: Battle, units: Seq<BattleUnit>)
    requires
        b.status == BattleStatus::InProgress,
        !side_alive(units, 0),
        side_alive(units, 1),
    ensures
        end_check_spec(b, units).status == BattleStatus::Finished,
        end_check_spec(b, units).winner == b.player2,
{
}

/// When both sides lose their last unit in the same tick, side 0's owner wins.
pub proof fn lemma_tie_goes_to_side_zero(b: Battle, units: Seq<BattleUnit>)
    requires
        b.status == BattleStatus::InProgress,
        !side_alive(units, 0),
        !side_alive(units, 1),
    ensures
        end_check_spec(b, units).status == BattleStatus::Finished,
        end_check_spec(b, units).winner == Some(b.player1),
{
}

/// A finished battle is never reopened or changed by the end check.
pub proof fn lemma_finished_stays_finished(b: Battle, units: Seq<BattleUnit>)
    requires
        b.status == BattleStatus::Finished,
    ensures
        end_check_spec(b, units) == b,
{
}

/// Ends a battle in progress once a side has no living unit left.
pub fn check_battle_end(battle: &mut Battle, units: &Vec<BattleUnit>)
    requires
        old(battle).wf(),
        forall|k: int| 0 <= k < units@.len() ==> (#[trigger] units@[k]).side <= 1,
    ensures
        *final(battle) == end_check_spec(*old(battle), units@),
        final(battle).wf(),
{
    let mut side0_alive = false;
    let mut side1_alive = false;
    let mut i: usize = 0;
    while i < units.len()
        invariant
            i <= units@.len(),
            forall|k: int| 0 <= k < units@.len() ==> (#[trigger] units@[k]).side <= 1,
            side0_alive == exists|k: int| 0 <= k < i && (#[trigger] units@[k]).side == 0 && units@[k].current_hp > 0,
            side1_alive == exists|k: int| 0 <= k < i && (#[trigger] units@[k]).side == 1 && units@[k].current_hp > 0,
        decreases units@.len() - i,
    {
        let u = &units[i];
        if u.current_hp > 0 {
            if u.side == 0 {
                side0_alive = true;
            } else {
                side1_alive = true;
            }
        }
        proof {
            assert(units@[i as int] == *u);
        }
        i = i + 1;
    }
    if battle.status == BattleStatus::InProgress && !(side0_alive && side1_alive) {
        battle.status = BattleStatus::Finished;
        if !side0_alive && side1_alive {
            battle.winner = battle.player2;
        } else {
            battle.winner = Some(battle.player1);
        }
    }
}

/// The unit list after one tick: index the living units, let each resolve
/// its combat against that snapshot, move, then apply all queued damage.
pub open spec fn tick_units_spec(units: Seq<BattleUnit>, rolls: Seq<u32>, cfg: BattleConfig) -> Seq<BattleUnit> {
    let entries = index_entries(units, cfg);
    let fought = combat_pass(units, entries, cfg);
    commit_pass(movement_pass(fought, entries, cfg), entries, queued_damages(units, entries, rolls, cfg))
}

/// One battle with the units that fight in it.
pub struct BattleState {
    pub battle: Battle,
    pub units: Vec<BattleUnit>,
}

impl BattleState {
    pub open spec fn wf(&self, cfg: BattleConfig) -> bool {
        &&& self.battle.wf()
        &&& units_wf(self.units@, cfg)
    }

    /// Whether the battle and every unit satisfy their invariants under `cfg`.
    pub fn check_wf(&self, cfg: &BattleConfig) -> (r: bool)
        ensures
            r == self.wf(*cfg),
    {
        if !self.battle.check_wf() {
            return false;
        }
        let mut i: usize = 0;
        while i < self.units.len()
            invariant
                i <= self.units@.len(),
                forall|k: int| 0 <= k < i ==> #[trigger] self.units@[k].wf(*cfg),
            decreases self.units@.len() - i,
        {
            if !self.units[i].check_wf(cfg) {
                return false;
            }
            i = i + 1;
        }
        true
    }
}

/// What a scheduled tick did, and whether another one is due.
#[derive(Clone, Copy, Debug, PartialEq, Eq, Structural)]
pub enum TickOutcome {
    /// The tick did not come from the scheduler; nothing changed.
    Rejected,
    /// The battle is gone or not in progress; nothing changed and no tick follows.
    Stopped,
    /// The tick ran and the battle goes on: the next tick is due.
    Continue,
    /// The tick ran and finished the battle: no tick follows.
    Ended,
}

proof fn lemma_entry_for_prefix(s1: Seq<crate::spatial::CacheEntry>, s2: Seq<crate::spatial::CacheEntry>, n: int, k: int)
    requires
        0 <= n <= s1.len(),
        n <= s2.len(),
        forall|j: int| 0 <= j < n ==> s1[j] == s2[j],
    ensures
        entry_for(s1, n, k) == entry_for(s2, n, k),
    decreases n,
{
    if n > 0 {
        lemma_entry_for_prefix(s1, s2, n - 1, k);
    }
}

proof fn lemma_index_entries_bounded(units: Seq<BattleUnit>, cfg: BattleConfig)
    ensures
        index_entries(units, cfg).len() <= units.len(),
        forall|j: int| 0 <= j < index_entries(units, cfg).len() ==> (#[trigger] index_entries(units, cfg)[j]).unit < units.len(),
    decreases units.len(),
{
    if units.len() > 0 {
        lemma_index_entries_bounded(units.drop_last(), cfg);
    }
}

/// A dead unit has no record in the index; a living one has.
pub proof fn lemma_index_holds_living(units: Seq<BattleUnit>, cfg: BattleConfig, k: int)
    requires
        0 <= k < units.len() <= usize::MAX,
    ensures
        (entry_for(index_entries(units, cfg), index_entries(units, cfg).len() as int, k) is Some) == (units[k].current_hp > 0),
    decreases units.len(),
{
    let n = units.len() as int;
    let rest_units = units.drop_last();
    let rest = index_entries(rest_units, cfg);
    let all = index_entries(units, cfg);
    lemma_index_entries_bounded(rest_units, cfg);
    if k < n - 1 {
        lemma_index_holds_living(rest_units, cfg, k);
        assert(rest_units[k] == units[k]);
        if units.last().current_hp > 0 {
            assert(all == rest.push(entry_of(units.last(), n - 1, cfg)));
            assert(all[rest.len() as int].unit == n - 1);
            lemma_entry_for_prefix(all, rest, rest.len() as int, k);
            assert(entry_for(all, all.len() as int, k) == entry_for(all, rest.len() as int, k));
        } else {
            assert(all == rest);
        }
    } else {
        if units.last().current_hp > 0 {
            assert(all == rest.push(entry_of(units.last(), n - 1, cfg)));
            assert(all[rest.len() as int].unit == n - 1);
        } else {
            assert(all == rest);
            crate::combat::lemma_entry_for_none(rest, rest.len() as int, k);
        }
    }
}

/// A tick leaves a dead unit's record exactly as it was.
pub proof fn lemma_tick_keeps_dead_units(units: Seq<BattleUnit>, rolls: Seq<u32>, cfg: BattleConfig, k: int)
    requires
        0 <= k < units.len() <= usize::MAX,
        units[k].current_hp == 0,
    ensures
        tick_units_spec(units, rolls, cfg)[k] == units[k],
{
    lemma_index_holds_living(units, cfg, k);
}

proof fn lemma_index_records(units: Seq<BattleUnit>, cfg: BattleConfig)
    requires
        units.len() <= usize::MAX,
    ensures
        forall|j: int| 0 <= j < index_entries(units, cfg).len() ==> {
            let e = #[trigger] index_entries(units, cfg)[j];
            &&& e.unit < units.len()
            &&& e.side == units[e.unit as int].side
            &&& units[e.unit as int].current_hp > 0
        },
    decreases units.len(),
{
    if units.len() > 0 {
        let rest_units = units.drop_last();
        lemma_index_records(rest_units, cfg);
        let rest = index_entries(rest_units, cfg);
        let all = index_entries(units, cfg);
        if units.last().current_hp > 0 {
            assert(all == rest.push(entry_of(units.last(), units.len() - 1, cfg)));
        } else {
            assert(all == rest);
        }
        assert forall|j: int| 0 <= j < all.len() implies {
            let e = #[trigger] all[j];
            &&& e.unit < units.len()
            &&& e.side == units[e.unit as int].side
            &&& units[e.unit as int].current_hp > 0
        } by {
            if j < rest.len() {
                assert(all[j] == rest[j]);
                assert(rest_units[rest[j].unit as int] == units[rest[j].unit as int]);
            }
        }
    }
}

proof fn lemma_entry_for_bounds(entries: Seq<crate::spatial::CacheEntry>, n: int, k: int)
    ensures
        entry_for(entries, n, k) matches Some(j) ==> 0 <= j < n && entries[j].unit == k,
    decreases n,
{
    if n > 0 {
        lemma_entry_for_bounds(entries, n - 1, k);
    }
}

proof fn lemma_no_damage_without_targets(
    units: Seq<BattleUnit>,
    entries: Seq<crate::spatial::CacheEntry>,
    rolls: Seq<u32>,
    cfg: BattleConfig,
    n: int,
    t: int,
)
    requires
        n <= entries.len(),
        forall|j: int| 0 <= j < entries.len() ==> (#[trigger] crate::combat::target_of(entries, j, cfg)) is None,
    ensures
        crate::combat::damage_total(units, entries, rolls, cfg, n, t) == 0,
    decreases n,
{
    if n > 0 {
        assert(crate::combat::target_of(entries, n - 1, cfg) is None);
        lemma_no_damage_without_targets(units, entries, rolls, cfg, n - 1, t);
    }
}

/// A battle in progress whose side 0 has no living unit, while side 1 has
/// one, is finished by the next tick and won by side 1's owner, whatever the
/// crit rolls: dead units neither act nor come back, and nobody is left to
/// harm side 1.
pub proof fn lemma_eliminated_side_loses_next_tick(b: Battle, units: Seq<BattleUnit>, rolls: Seq<u32>, cfg: BattleConfig)
    requires
        cfg.wf(),
        units_wf(units, cfg),
        units.len() <= usize::MAX,
        rolls.len() == units.len(),
        b.status == BattleStatus::InProgress,
        !side_alive(units, 0),
        side_alive(units, 1),
    ensures
        end_check_spec(b, tick_units_spec(units, rolls, cfg)).status == BattleStatus::Finished,
        end_check_spec(b, tick_units_spec(units, rolls, cfg)).winner == b.player2,
{
    let entries = index_entries(units, cfg);
    let after = tick_units_spec(units, rolls, cfg);
    lemma_index_records(units, cfg);
    assert forall|j: int| 0 <= j < entries.len() implies (#[trigger] entries[j]).side == 1 by {
        let k = entries[j].unit as int;
        assert(units[k].wf(cfg));
        if units[k].side == 0 {
            assert(side_alive(units, 0));
        }
    }
    assert forall|j: int| 0 <= j < entries.len() implies (#[trigger] crate::combat::target_of(entries, j, cfg)) is None by {
        let x = entries[j].x as int;
        let y = entries[j].y as int;
        let range = cfg.attack_range as int;
        assert forall|t: int| !crate::spatial::is_nearest(entries, entries.len() as int, t, x, y, entries[j].side, range) by {
            if 0 <= t < entries.len() {
                assert(entries[t].side == 1);
            }
        }
    }
    let damages = queued_damages(units, entries, rolls, cfg);
    assert forall|t: int| 0 <= t < damages.len() implies #[trigger] damages[t] == 0 by {
        lemma_no_damage_without_targets(units, entries, rolls, cfg, entries.len() as int, t);
    }
    let k1 = choose|k: int| 0 <= k < units.len() && (#[trigger] units[k]).side == 1 && units[k].current_hp > 0;
    lemma_index_holds_living(units, cfg, k1);
    let j1 = entry_for(entries, entries.len() as int, k1)->0;
    lemma_entry_for_bounds(entries, entries.len() as int, k1);
    let fought = combat_pass(units, entries, cfg);
    assert(fought[k1] == crate::combat::resolve_unit_spec(units[k1], entries, j1, cfg));
    assert(fought[k1].current_hp == units[k1].current_hp && fought[k1].side == 1);
    let moved = movement_pass(fought, entries, cfg);
    assert(moved[k1] == crate::movement::moved_unit_spec(fought[k1], entries, j1, cfg));
    assert(moved[k1].current_hp == units[k1].current_hp && moved[k1].side == 1);
    assert(damages[j1] == 0);
    assert(after[k1] == crate::combat::after_damage(moved[k1], damages[j1]));
    assert(after[k1].current_hp > 0 && after[k1].side == 1);
    assert(side_alive(after, 1));
    assert forall|k: int| 0 <= k < after.len() && (#[trigger] after[k]).side == 0 implies after[k].current_hp == 0 by {
        lemma_index_holds_living(units, cfg, k);
        if units[k].current_hp > 0 {
            assert(units[k].side != 0 ==> after[k].side == units[k].side);
            assert(units[k].side == 0 ==> side_alive(units, 0));
        } else {
            lemma_tick_keeps_dead_units(units, rolls, cfg, k);
        }
    }
    assert(!side_alive(after, 0));
    lemma_side_one_wins(b, after);
}

/// Runs one tick of a battle in progress with the given crit rolls, one per
/// unit: rebuild the index, resolve combat, move, commit damage, then check
/// whether the battle has ended. Returns whether another tick is due.
pub fn run_tick(state: &mut BattleState, rolls: &Vec<u32>, cfg: &BattleConfig) -> (r: bool)
    requires
        cfg.wf(),
        old(state).wf(*cfg),
        old(state).battle.status == BattleStatus::InProgress,
        rolls@.len() == old(state).units@.len(),
    ensures
        final(state).wf(*cfg),
        forall|k: int| 0 <= k < final(state).units@.len() ==> (#[trigger] final(state).units@[k]).pools_bounded(),
        final(state).units@ == tick_units_spec(old(state).units@, rolls@, *cfg),
        final(state).battle == end_check_spec(old(state).battle, final(state).units@),
        r == (final(state).battle.status == BattleStatus::InProgress),
{
    let mut cache = BattleCollisionCache::new();
    build_collision_cache(&state.units, cfg, &mut cache);
    let ghost start = state.units@;
    let ghost entries = cache.entries@;
    process_unit_ai_and_combat(&mut state.units, &mut cache, rolls, cfg);
    let ghost damages = cache.damage_to_unit@;
    process_unit_movement(&mut state.units, &cache, cfg);
    commit_damage_and_check_deaths(&mut state.units, &cache, cfg);
    assert(state.units@ == tick_units_spec(start, rolls@, *cfg));
    proof {
        assert forall|k: int| 0 <= k < state.units@.len() implies (#[trigger] state.units@[k]).side <= 1 by {
            assert(state.units@[k].wf(*cfg));
        }
    }
    check_battle_end(&mut state.battle, &state.units);
    assert forall|k: int| 0 <= k < state.units@.len() implies (#[trigger] state.units@[k]).pools_bounded() by {
        assert(state.units@[k].wf(*cfg));
    }
    state.battle.status == BattleStatus::InProgress
}

/// What a tick that ran owes: the units went through one tick with some crit
/// rolls in `0..100`, and the battle went through its end check.
pub open spec fn ticked(before: BattleState, after: BattleState, cfg: BattleConfig) -> bool {
    &&& after.wf(cfg)
    &&& exists|rolls: Seq<u32>| {
        &&& rolls.len() == before.units@.len()
        &&& forall|i: int| 0 <= i < rolls.len() ==> #[trigger] rolls[i] < 100
        &&& after.units@ == tick_units_spec(before.units@, rolls, cfg)
    }
    &&& after.battle == end_check_spec(before.battle, after.units@)
}

/// What a tick from the scheduler returns for a battle: no tick for a
/// battle that is gone or not in progress; otherwise the battle after one
/// tick, with `Continue` while it is still in progress and `Ended` once not.
pub open spec fn scheduled_tick_spec(state: Option<BattleState>, r: (Option<BattleState>, TickOutcome), cfg: BattleConfig) -> bool {
    match state {
        None => r.0 is None && r.1 == TickOutcome::Stopped,
        Some(s) => if s.battle.status != BattleStatus::InProgress {
            r.0 == state && r.1 == TickOutcome::Stopped
        } else {
            match r.0 {
                Some(after) => {
                    &&& ticked(s, after, cfg)
                    &&& r.1 == if after.battle.status == BattleStatus::InProgress {
                        TickOutcome::Continue
                    } else {
                        TickOutcome::Ended
                    }
                },
                None => false,
            }
        },
    }
}

/// The scheduled tick of one battle. A call that does not come from the
/// scheduler is rejected and changes nothing. A battle that is gone, or not
/// in progress, gets no tick and no next one. Otherwise the tick runs with
/// crit rolls drawn from `rng`, and the next tick is due while the battle is
/// still in progress.
pub fn battle_tick(
    from_scheduler: bool,
    state: Option<BattleState>,
    rng: &mut StdRng,
    cfg: &BattleConfig,
) -> (r: (Option<BattleState>, TickOutcome))
    requires
        cfg.wf(),
        state matches Some(s) ==> s.wf(*cfg),
    ensures
        !from_scheduler ==> r.0 == state && r.1 == TickOutcome::Rejected,
        from_scheduler ==> scheduled_tick_spec(state, r, *cfg),
{
    if !from_scheduler {
        return (state, TickOutcome::Rejected);
    }
    match state {
        None => (None, TickOutcome::Stopped),
        Some(mut s) => {
            if s.battle.status != BattleStatus::InProgress {
                return (Some(s), TickOutcome::Stopped);
            }
            let rolls = draw_rolls(rng, s.units.len());
            let ghost before = s;
            let again = run_tick(&mut s, &rolls, cfg);
            assert(ticked(before, s, *cfg));
            if again {
                (Some(s), TickOutcome::Continue)
            } else {
                (Some(s), TickOutcome::Ended)
            }
        },
    }
}

/// The units one side brings: one per roster entry on the field, in roster
/// order, numbered on from `first_id` and placed by their place in the line-up.
pub open spec fn side_units_spec(
    crews: Seq<Crew>,
    battle_id: u64,
    owner: Identity,
    side: u8,
    first_id: int,
    cat_components: Seq<ItemComponentStats>,
    cat_completed: Seq<CompletedItemStats>,
    upgrades: Seq<UpgradeEffect>,
    cfg: BattleConfig,
) -> Seq<BattleUnit>
    decreases crews.len(),
{
    if crews.len() == 0 {
        Seq::empty()
    } else {
        let rest = side_units_spec(crews.drop_last(), battle_id, owner, side, first_id, cat_components, cat_completed, upgrades, cfg);
        let c = crews.last();
        if c.slot_index is Some {
            let pos = spawn_position_spec(rest.len() as int, side);
            rest.push(new_unit_spec(
                (first_id + rest.len()) as u64,
                battle_id,
                c,
                owner,
                side,
                (pos.0 as i64, pos.1 as i64),
                cat_components,
                cat_completed,
                upgrades,
                cfg,
            ))
        } else {
            rest
        }
    }
}

proof fn lemma_side_units_len(
    crews: Seq<Crew>,
    battle_id: u64,
    owner: Identity,
    side: u8,
    first_id: int,
    cat_components: Seq<ItemComponentStats>,
    cat_completed: Seq<CompletedItemStats>,
    upgrades: Seq<UpgradeEffect>,
    cfg: BattleConfig,
)
    ensures
        side_units_spec(crews, battle_id, owner, side, first_id, cat_components, cat_completed, upgrades, cfg).len() <= crews.len(),
    decreases crews.len(),
{
    if crews.len() > 0 {
        lemma_side_units_len(crews.drop_last(), battle_id, owner, side, first_id, cat_components, cat_completed, upgrades, cfg);
    }
}

fn add_side_units(
    out: &mut Vec<BattleUnit>,
    battle_id: u64,
    owner: Identity,
    side: u8,
    crews: &Vec<Crew>,
    cat: &ItemCatalog,
    upgrades: &Vec<UpgradeEffect>,
    cfg: &BattleConfig,
)
    requires
        cfg.wf(),
        side <= 1,
        crews@.len() <= MAX_UNITS_PER_SIDE,
        old(out)@.len() <= MAX_UNITS_PER_SIDE,
        units_wf(old(out)@, *cfg),
    ensures
        final(out)@ == old(out)@ + side_units_spec(crews@, battle_id, owner, side, old(out)@.len() as int, cat.components@, cat.completed@, upgrades@, *cfg),
        units_wf(final(out)@, *cfg),
{
    let ghost start = out@;
    let first = out.len();
    let mut placed: usize = 0;
    let mut i: usize = 0;
    while i < crews.len()
        invariant
            cfg.wf(),
            side <= 1,
            first == start.len(),
            crews@.len() <= MAX_UNITS_PER_SIDE,
            first <= MAX_UNITS_PER_SIDE,
            i <= crews@.len(),
            out@ == start + side_units_spec(crews@.take(i as int), battle_id, owner, side, first as int, cat.components@, cat.completed@, upgrades@, *cfg),
            placed == out@.len() - first,
            placed <= i,
            units_wf(out@, *cfg),
        decreases crews@.len() - i,
    {
        assert(crews@.take(i as int + 1).drop_last() == crews@.take(i as int));
        proof {
            lemma_side_units_len(crews@.take(i as int), battle_id, owner, side, first as int, cat.components@, cat.completed@, upgrades@, *cfg);
        }
        let c = &crews[i];
        if c.slot_index.is_some() {
            let pos = get_spawn_position(placed, side);
            let unit = create_battle_unit((first + placed) as u64, battle_id, c, owner, side, pos, cat, upgrades, cfg);
            out.push(unit);
            placed = placed + 1;
        }
        i = i + 1;
    }
    assert(crews@.take(crews@.len() as int) == crews@);
}

/// The units of a new battle: those of player 1's field on side 0, then
/// those of player 2's field on side 1, each made from its roster entry with
/// its owner's upgrades, numbered from 0 in this order.
pub fn start_battle(
    battle_id: u64,
    player1: Identity,
    player1_crew: &Vec<Crew>,
    player1_upgrades: &Vec<UpgradeEffect>,
    player2: Identity,
    player2_crew: &Vec<Crew>,
    player2_upgrades: &Vec<UpgradeEffect>,
    cat: &ItemCatalog,
    cfg: &BattleConfig,
) -> (r: Vec<BattleUnit>)
    requires
        cfg.wf(),
        player1_crew@.len() <= MAX_UNITS_PER_SIDE,
        player2_crew@.len() <= MAX_UNITS_PER_SIDE,
    ensures
        ({
            let side0 = side_units_spec(player1_crew@, battle_id, player1, 0, 0, cat.components@, cat.completed@, player1_upgrades@, *cfg);
            let side1 = side_units_spec(player2_crew@, battle_id, player2, 1, side0.len() as int, cat.components@, cat.completed@, player2_upgrades@, *cfg);
            r@ == side0 + side1
        }),
        units_wf(r@, *cfg),
{
    let mut units: Vec<BattleUnit> = Vec::new();
    add_side_units(&mut units, battle_id, player1, 0, player1_crew, cat, player1_upgrades, cfg);
    proof {
        lemma_side_units_len(player1_crew@, battle_id, player1, 0, 0, cat.components@, cat.completed@, player1_upgrades@, *cfg);
    }
    assert(units@ == side_units_spec(player1_crew@, battle_id, player1, 0, 0, cat.components@, cat.completed@, player1_upgrades@, *cfg));
    add_side_units(&mut units, battle_id, player2, 1, player2_crew, cat, player2_upgrades, cfg);
    units
}

} // verus!
