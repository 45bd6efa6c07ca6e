//! The fleet that a new game starts with.
use crate::people::Occupation;
use crate::selection::Side;
use crate::ships::{crew_capacity_of, ShipType};
use vstd::prelude::*;

verus! {

/// A ship to create: its kind, its side, its place among the ships of the
/// same kind and side (which decides where it starts), and its crew.
pub struct ShipPlan {
    pub tag: ShipType,
    pub side: Side,
    pub slot: usize,
    pub crew: Vec<Occupation>,
}

/// `n` people of one occupation.
pub open spec fn repeated(occupation: Occupation, n: nat) -> Seq<Occupation> {
    Seq::new(n, |_i: int| occupation)
}

/// The crew of the starting carrier.
pub open spec fn carrier_crew() -> Seq<Occupation> {
    repeated(Occupation::Worker, 45) + repeated(Occupation::Marine, 20) + repeated(
        Occupation::Pilot,
        25,
    ) + repeated(Occupation::Government, 10)
}

/// The number of ships that a new game starts with.
pub open spec fn fleet_size() -> nat {
    25
}

/// Ship `i` of the starting fleet, as (kind, side, slot, crew): a carrier and
/// a tanker, twenty fighters with a pilot each, two miners, all friendly,
/// and an enemy fighter.
pub open spec fn planned_ship(i: int) -> (ShipType, Side, nat, Seq<Occupation>) {
    if i == 0 {
        (ShipType::Carrier, Side::Friendly, 0, carrier_crew())
    } else if i == 1 {
        (ShipType::Tanker, Side::Friendly, 0, repeated(Occupation::Worker, 10))
    } else if i < 22 {
        (ShipType::Fighter, Side::Friendly, (i - 2) as nat, repeated(Occupation::Pilot, 1))
    } else if i < 24 {
        (ShipType::Miner, Side::Friendly, (i - 22) as nat, Seq::empty())
    } else {
        (ShipType::Fighter, Side::Enemy, 0, Seq::empty())
    }
}

/// Adds `n` people of `occupation` to `crew`.
fn push_crew(crew: &mut Vec<Occupation>, occupation: Occupation, n: usize)
    ensures
        final(crew)@ == old(crew)@ + repeated(occupation, n as nat),
{
    let mut k: usize = 0;
    while k < n
        invariant
            k <= n,
            crew@ == old(crew)@ + repeated(occupation, k as nat),
        decreases n - k,
    {
        crew.push(occupation);
        k = k + 1;
        proof {
            assert(crew@ =~= old(crew)@ + repeated(occupation, k as nat));
        }
    }
}

/// The ships that a new game starts with, in the order in which they are created.
pub fn starting_fleet() -> (fleet: Vec<ShipPlan>)
    ensures
        fleet.len() == fleet_size(),
        forall|i: int|
            0 <= i < fleet.len() ==> ((#[trigger] fleet[i]).tag, fleet[i].side, fleet[i].slot as nat,
            fleet[i].crew@) == planned_ship(i),
{
    let mut fleet: Vec<ShipPlan> = Vec::new();
    let mut carrier: Vec<Occupation> = Vec::new();
    push_crew(&mut carrier, Occupation::Worker, 45);
    push_crew(&mut carrier, Occupation::Marine, 20);
    push_crew(&mut carrier, Occupation::Pilot, 25);
    push_crew(&mut carrier, Occupation::Government, 10);
    proof {
        assert(carrier@ =~= carrier_crew());
    }
    fleet.push(ShipPlan { tag: ShipType::Carrier, side: Side::Friendly, slot: 0, crew: carrier });
    let mut tanker: Vec<Occupation> = Vec::new();
    push_crew(&mut tanker, Occupation::Worker, 10);
    proof {
        assert(tanker@ =~= repeated(Occupation::Worker, 10));
    }
    fleet.push(ShipPlan { tag: ShipType::Tanker, side: Side::Friendly, slot: 0, crew: tanker });
    let mut i: usize = 0;
    while i < 20
        invariant
            i <= 20,
            fleet.len() == 2 + i,
            forall|j: int|
                0 <= j < fleet.len() ==> ((#[trigger] fleet[j]).tag, fleet[j].side, fleet[j].slot as nat,
                fleet[j].crew@) == planned_ship(j),
        decreases 20 - i,
    {
        let mut pilot: Vec<Occupation> = Vec::new();
        push_crew(&mut pilot, Occupation::Pilot, 1);
        proof {
            assert(pilot@ =~= repeated(Occupation::Pilot, 1));
        }
        fleet.push(ShipPlan { tag: ShipType::Fighter, side: Side::Friendly, slot: i, crew: pilot });
        i = i + 1;
    }
    let mut m: usize = 0;
    while m < 2
        invariant
            m <= 2,
            fleet.len() == 22 + m,
            forall|j: int|
                0 <= j < fleet.len() ==> ((#[trigger] fleet[j]).tag, fleet[j].side, fleet[j].slot as nat,
                fleet[j].crew@) == planned_ship(j),
        decreases 2 - m,
    {
        let nobody: Vec<Occupation> = Vec::new();
        proof {
            assert(nobody@ =~= Seq::<Occupation>::empty());
        }
        fleet.push(ShipPlan { tag: ShipType::Miner, side: Side::Friendly, slot: m, crew: nobody });
        m = m + 1;
    }
    let nobody: Vec<Occupation> = Vec::new();
    proof {
        assert(nobody@ =~= Seq::<Occupation>::empty());
    }
    fleet.push(ShipPlan { tag: ShipType::Fighter, side: Side::Enemy, slot: 0, crew: nobody });
    fleet
}

/// Every ship of the starting fleet has room for its crew.
pub proof fn law_starting_crews_fit(i: int)
    requires
        0 <= i < fleet_size(),
    ensures
        planned_ship(i).3.len() <= crew_capacity_of(planned_ship(i).0),
{
}

/// The player owns every ship of the starting fleet but the last, which is
/// the only enemy: a fighter with nobody aboard. The player's fleet is a
/// carrier, a tanker, twenty fighters with one pilot each and two miners.
pub proof fn law_starting_sides(i: int)
    requires
        0 <= i < fleet_size(),
    ensures
        i < fleet_size() - 1 ==> planned_ship(i).1 == Side::Friendly,
        i == fleet_size() - 1 ==> planned_ship(i).1 == Side::Enemy && planned_ship(i).0
            == ShipType::Fighter && planned_ship(i).3.len() == 0,
        planned_ship(i).0 == ShipType::Carrier <==> i == 0,
        planned_ship(i).0 == ShipType::Tanker <==> i == 1,
        planned_ship(i).0 == ShipType::Miner <==> (i == 22 || i == 23),
        planned_ship(i).0 == ShipType::Fighter && planned_ship(i).1 == Side::Friendly ==> planned_ship(
            i,
        ).3 =~= seq![Occupation::Pilot],
{
}

} // verus!
