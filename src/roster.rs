use vstd::prelude::*;
use spacetimedb::Identity;
use crate::battle::Battle;
use crate::stats::Crew;
use crate::types::{BattleStatus, Item, ShipType};

verus! {

/// A registered player.
#[derive(Debug)]
pub struct Player {
    pub identity: Identity,
    pub name: String,
    /// Currency.
    pub berries: u32,
    pub xp: u8,
    pub level: u8,
    pub hp: u8,
    /// Raised by each win, reset by a loss.
    pub bounty: u32,
    pub wins: u32,
    pub win_streak: u32,
    pub losses: u32,
    pub ship_type: ShipType,
    pub online: bool,
}

/// Berries a new player starts with.
pub const STARTING_BERRIES: u32 = 1_000_000;
/// Bounty added to the winner of a battle.
pub const BOUNTY_PER_WIN: u32 = 100_000;

impl Player {
    /// A newly registered player: starting berries, level 1, 5 hp, on a raft, online.
    pub fn new(identity: Identity, name: String) -> (r: Player)
        ensures
            r.identity == identity,
            r.name == name,
            r.berries == STARTING_BERRIES,
            r.xp == 0,
            r.level == 1,
            r.hp == 5,
            r.bounty == 0,
            r.wins == 0,
            r.win_streak == 0,
            r.losses == 0,
            r.ship_type == ShipType::Raft,
            r.online,
    {
        Player {
            identity,
            name,
            berries: STARTING_BERRIES,
            xp: 0,
            level: 1,
            hp: 5,
            bounty: 0,
            wins: 0,
            win_streak: 0,
            losses: 0,
            ship_type: ShipType::Raft,
            online: true,
        }
    }
}

/// Why a roster or battle request was refused.
#[derive(Clone, Copy, Debug, PartialEq, Eq, Structural)]
pub enum RosterError {
    /// All three item slots are taken.
    SlotsFull,
    /// The slot is not 1, 2 or 3, or holds no item.
    EmptySlot,
    BattleNotFinished,
    NotYourBattle,
}

/// Puts an item in the first empty slot of three; refused when all are taken.
pub fn equip_item(crew: &mut Crew, item: Item) -> (r: Result<(), RosterError>)
    ensures
        old(crew).item1 is None ==> r is Ok && final(crew).item1 == Some(item) && final(crew).item2 == old(crew).item2
            && final(crew).item3 == old(crew).item3,
        old(crew).item1 is Some && old(crew).item2 is None ==> r is Ok && final(crew).item1 == old(crew).item1
            && final(crew).item2 == Some(item) && final(crew).item3 == old(crew).item3,
        old(crew).item1 is Some && old(crew).item2 is Some && old(crew).item3 is None ==> r is Ok
            && final(crew).item1 == old(crew).item1 && final(crew).item2 == old(crew).item2
            && final(crew).item3 == Some(item),
        old(crew).item1 is Some && old(crew).item2 is Some && old(crew).item3 is Some ==> r == Err::<(), RosterError>(RosterError::SlotsFull)
            && final(crew).item1 == old(crew).item1 && final(crew).item2 == old(crew).item2
            && final(crew).item3 == old(crew).item3,
        final(crew).id == old(crew).id,
{
    if crew.item1.is_none() {
        crew.item1 = Some(item);
        Ok(())
    } else if crew.item2.is_none() {
        crew.item2 = Some(item);
        Ok(())
    } else if crew.item3.is_none() {
        crew.item3 = Some(item);
        Ok(())
    } else {
        Err(RosterError::SlotsFull)
    }
}

/// The item in slot 1, 2 or 3, if any.
pub open spec fn slot_item(crew: Crew, slot: u8) -> Option<Item> {
    if slot == 1 { crew.item1 } else if slot == 2 { crew.item2 } else if slot == 3 { crew.item3 } else { None }
}

/// Takes the item out of slot 1, 2 or 3 and returns it; refused when the
/// slot does not exist or is empty.
pub fn remove_item(crew: &mut Crew, slot: u8) -> (r: Result<Item, RosterError>)
    ensures
        slot_item(*old(crew), slot) matches Some(item) ==> r == Ok::<Item, RosterError>(item)
            && slot_item(*final(crew), slot) is None,
        slot_item(*old(crew), slot) is None ==> r == Err::<Item, RosterError>(RosterError::EmptySlot),
        final(crew).item1 == if slot == 1 { None } else { old(crew).item1 },
        final(crew).item2 == if slot == 2 { None } else { old(crew).item2 },
        final(crew).item3 == if slot == 3 { None } else { old(crew).item3 },
{
    let taken = if slot == 1 {
        crew.item1.take()
    } else if slot == 2 {
        crew.item2.take()
    } else if slot == 3 {
        crew.item3.take()
    } else {
        None
    };
    match taken {
        Some(item) => Ok(item),
        None => Err(RosterError::EmptySlot),
    }
}

/// What a player looking for a battle should do.
#[derive(Clone, Copy, Debug, PartialEq, Eq, Structural)]
pub enum MatchDecision {
    /// Join the waiting battle at this position.
    Join(usize),
    /// The player already waits for an opponent.
    AlreadyWaiting,
    /// Open a new battle and wait.
    Open,
}

/// Battle `i` waits for an opponent and was opened by someone else.
pub open spec fn joinable(battles: Seq<Battle>, player: Identity, i: int) -> bool {
    battles[i].status == BattleStatus::WaitingForOpponent && battles[i].player1 != player
}

/// Matchmaking: join the first battle that another player opened and that
/// waits for an opponent; failing that, a player who already waits is
/// refused, and any other opens a battle.
pub fn choose_battle(battles: &Vec<Battle>, player: Identity) -> (r: MatchDecision)
    ensures
        r matches MatchDecision::Join(i) ==> i < battles@.len() && joinable(battles@, player, i as int)
            && forall|j: int| 0 <= j < i ==> !joinable(battles@, player, j),
        r is AlreadyWaiting ==> (forall|j: int| 0 <= j < battles@.len() ==> !joinable(battles@, player, j))
            && exists|j: int| 0 <= j < battles@.len() && (#[trigger] battles@[j]).status == BattleStatus::WaitingForOpponent
                && battles@[j].player1 == player,
        r is Open ==> forall|j: int| 0 <= j < battles@.len() ==> (#[trigger] battles@[j]).status != BattleStatus::WaitingForOpponent,
{
    let mut waiting_self = false;
    let mut i: usize = 0;
    while i < battles.len()
        invariant
            i <= battles@.len(),
            forall|j: int| 0 <= j < i ==> !joinable(battles@, player, j),
            waiting_self == exists|j: int| 0 <= j < i && (#[trigger] battles@[j]).status == BattleStatus::WaitingForOpponent
                && battles@[j].player1 == player,
            !waiting_self ==> forall|j: int| 0 <= j < i ==> (#[trigger] battles@[j]).status != BattleStatus::WaitingForOpponent,
        decreases battles@.len() - i,
    {
        let b = &battles[i];
        if b.status == BattleStatus::WaitingForOpponent {
            if b.player1 != player {
                return MatchDecision::Join(i);
            }
            waiting_self = true;
        }
        assert(battles@[i as int] == *b);
        i = i + 1;
    }
    if waiting_self { MatchDecision::AlreadyWaiting } else { MatchDecision::Open }
}

/// Winner and loser of a finished battle, for a player who fought in it.
pub fn battle_result(battle: &Battle, sender: Identity) -> (r: Result<(Identity, Identity), RosterError>)
    requires
        battle.wf(),
    ensures
        battle.status != BattleStatus::Finished ==> r == Err::<(Identity, Identity), RosterError>(RosterError::BattleNotFinished),
        battle.status == BattleStatus::Finished && battle.player1 != sender && battle.player2 != Some(sender)
            ==> r == Err::<(Identity, Identity), RosterError>(RosterError::NotYourBattle),
        r matches Ok((w, l)) ==> battle.status == BattleStatus::Finished && battle.winner == Some(w)
            && (if w == battle.player1 { battle.player2 == Some(l) } else { l == battle.player1 }),
        battle.status == BattleStatus::Finished && (battle.player1 == sender || battle.player2 == Some(sender)) ==> r is Ok,
{
    if battle.status != BattleStatus::Finished {
        return Err(RosterError::BattleNotFinished);
    }
    let in_battle = battle.player1 == sender || match battle.player2 {
        Some(p) => p == sender,
        None => false,
    };
    if !in_battle {
        return Err(RosterError::NotYourBattle);
    }
    let winner = battle.winner.unwrap();
    if winner == battle.player1 {
        Ok((winner, battle.player2.unwrap()))
    } else {
        Ok((winner, battle.player1))
    }
}

/// `a + b`, or `u32::MAX` where that does not fit.
pub open spec fn sat_add(a: u32, b: u32) -> u32 {
    if a + b > u32::MAX { u32::MAX } else { (a + b) as u32 }
}

/// Settles a finished battle: the winner gains a win, the fixed bounty and
/// the loser's bounty in berries; the loser gains a loss and loses its bounty,
/// which the battle records. Counters saturate.
pub fn settle_battle_rewards(battle: &mut Battle, winner: &mut Player, loser: &mut Player)
    ensures
        final(winner).wins == sat_add(old(winner).wins, 1),
        final(winner).bounty == sat_add(old(winner).bounty, BOUNTY_PER_WIN),
        final(winner).berries == sat_add(old(winner).berries, old(loser).bounty),
        final(loser).losses == sat_add(old(loser).losses, 1),
        final(loser).bounty == 0,
        *final(battle) == (Battle { bounty_reward: old(loser).bounty, ..*old(battle) }),
        final(winner).identity == old(winner).identity,
        final(loser).identity == old(loser).identity,
        final(winner).losses == old(winner).losses,
        final(loser).wins == old(loser).wins,
        final(loser).berries == old(loser).berries,
{
    let reward = loser.bounty;
    winner.wins = winner.wins.saturating_add(1);
    winner.bounty = winner.bounty.saturating_add(BOUNTY_PER_WIN);
    winner.berries = winner.berries.saturating_add(reward);
    loser.losses = loser.losses.saturating_add(1);
    loser.bounty = 0;
    battle.bounty_reward = reward;
}

} // verus!
