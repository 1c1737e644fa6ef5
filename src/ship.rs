use vstd::prelude::*;
use crate::stats::Crew;
use crate::types::{CrewTrait, ShipType};

verus! {

/// The traits that decide a ship, in the order in which they win ties.
pub open spec fn ship_traits() -> Seq<CrewTrait> {
    seq![
        CrewTrait::StrawHat,
        CrewTrait::RedHairPirates,
        CrewTrait::Giants,
        CrewTrait::BlackbearedPirates,
        CrewTrait::WhitebearedPirates,
        CrewTrait::BigMomPirates,
        CrewTrait::HeartPirates,
        CrewTrait::CrossGuildPirates,
    ]
}

/// `a + b`, or `u64::MAX` where that does not fit.
pub open spec fn sat_add64(a: u64, b: u64) -> u64 {
    if a + b > u64::MAX { u64::MAX } else { (a + b) as u64 }
}

/// How often `t` occurs in a list of traits.
pub open spec fn occurrences(traits: Seq<CrewTrait>, t: CrewTrait, start: u64) -> u64
    decreases traits.len(),
{
    if traits.len() == 0 {
        start
    } else {
        let rest = occurrences(traits.drop_last(), t, start);
        if traits.last() == t { sat_add64(rest, 1) } else { rest }
    }
}

/// How often `t` occurs among the traits of the crew on the field
/// (counting up to `u64::MAX`).
pub open spec fn trait_count(crews: Seq<Crew>, t: CrewTrait) -> u64
    decreases crews.len(),
{
    if crews.len() == 0 {
        0
    } else {
        let rest = trait_count(crews.drop_last(), t);
        if crews.last().slot_index is Some { occurrences(crews.last().traits@, t, rest) } else { rest }
    }
}

/// Among the first `n` ship-deciding traits, the one that occurs most on the
/// field (the earlier one on a tie), if any occurs at all.
pub open spec fn leading_trait(crews: Seq<Crew>, n: int) -> Option<CrewTrait>
    decreases n,
{
    if n <= 0 {
        None
    } else {
        let best = leading_trait(crews, n - 1);
        let t = ship_traits()[n - 1];
        let c = trait_count(crews, t);
        match best {
            Some(b) => if c > trait_count(crews, b) { Some(t) } else { best },
            None => if c > 0 { Some(t) } else { None },
        }
    }
}

/// The ship of a player whose crew is `crews`: that of the ship-deciding
/// trait that occurs most among the crew on the field, or the raft.
pub open spec fn ship_type_spec(crews: Seq<Crew>) -> ShipType {
    match leading_trait(crews, 8) {
        Some(t) => t.ship_trait_spec()->0,
        None => ShipType::Raft,
    }
}

fn count_trait(crews: &Vec<Crew>, t: CrewTrait) -> (r: u64)
    ensures
        r == trait_count(crews@, t),
{
    let mut total: u64 = 0;
    let mut i: usize = 0;
    while i < crews.len()
        invariant
            i <= crews@.len(),
            total == trait_count(crews@.take(i as int), t),
        decreases crews@.len() - i,
    {
        assert(crews@.take(i as int + 1).drop_last() == crews@.take(i as int));
        let c = &crews[i];
        if c.slot_index.is_some() {
            let ghost start = total;
            let mut j: usize = 0;
            while j < c.traits.len()
                invariant
                    j <= c.traits@.len(),
                    total == occurrences(c.traits@.take(j as int), t, start),
                decreases c.traits@.len() - j,
            {
                assert(c.traits@.take(j as int + 1).drop_last() == c.traits@.take(j as int));
                if c.traits[j] == t {
                    total = total.saturating_add(1);
                }
                j = j + 1;
            }
            assert(c.traits@.take(c.traits@.len() as int) == c.traits@);
        }
        i = i + 1;
    }
    assert(crews@.take(crews@.len() as int) == crews@);
    total
}

/// The ship a player sails with, decided by the traits of the crew on the field.
pub fn calculate_ship_type(crews: &Vec<Crew>) -> (r: ShipType)
    ensures
        r == ship_type_spec(crews@),
{
    let candidates: Vec<CrewTrait> = vec![
        CrewTrait::StrawHat,
        CrewTrait::RedHairPirates,
        CrewTrait::Giants,
        CrewTrait::BlackbearedPirates,
        CrewTrait::WhitebearedPirates,
        CrewTrait::BigMomPirates,
        CrewTrait::HeartPirates,
        CrewTrait::CrossGuildPirates,
    ];
    assert(candidates@ == ship_traits());
    let mut best: Option<CrewTrait> = None;
    let mut best_count: u64 = 0;
    let mut i: usize = 0;
    while i < candidates.len()
        invariant
            candidates@ == ship_traits(),
            i <= 8,
            best == leading_trait(crews@, i as int),
            best matches Some(b) ==> best_count == trait_count(crews@, b),
            best is None ==> best_count == 0,
            best matches Some(b) ==> b.ship_trait_spec() is Some,
        decreases 8 - i,
    {
        let t = candidates[i];
        let c = count_trait(crews, t);
        if c > best_count {
            best = Some(t);
            best_count = c;
        }
        i = i + 1;
    }
    match best {
        Some(t) => match t.ship_trait() {
            Some(s) => s,
            None => ShipType::Raft,
        },
        None => ShipType::Raft,
    }
}

} // verus!
