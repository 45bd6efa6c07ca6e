//! Orders given with the right mouse button.
//!
//! The systems here see the objects of the game as parallel lists: position
//! `i` of each list describes the same object.
use crate::ships::{Command, Commands, Interaction};
use vstd::prelude::*;

verus! {

/// The entries of `items` among the first `n` whose flag in `keep` is set, in order.
pub open spec fn kept<E>(items: Seq<E>, keep: Seq<bool>, n: nat) -> Seq<E>
    decreases n,
{
    if n == 0 {
        Seq::empty()
    } else if keep[n - 1] {
        kept(items, keep, (n - 1) as nat).push(items[n - 1])
    } else {
        kept(items, keep, (n - 1) as nat)
    }
}

/// Nothing flagged is left out and nothing else comes in: the result of
/// keeping the flagged entries among the first `n` is `items` read at an
/// increasing list of positions (returned here), each below `n` and flagged,
/// and every flagged position below `n` is on that list.
pub proof fn law_kept_exactly_the_flagged<E>(items: Seq<E>, keep: Seq<bool>, n: nat) -> (positions: Seq<
    int,
>)
    requires
        n <= items.len(),
        n <= keep.len(),
    ensures
        positions.len() == kept(items, keep, n).len(),
        forall|k: int|
            0 <= k < positions.len() ==> 0 <= #[trigger] positions[k] < n && keep[positions[k]]
                && kept(items, keep, n)[k] == items[positions[k]],
        forall|k: int, l: int| 0 <= k < l < positions.len() ==> positions[k] < positions[l],
        forall|i: int|
            0 <= i < n && #[trigger] keep[i] ==> exists|k: int|
                0 <= k < positions.len() && #[trigger] positions[k] == i,
    decreases n,
{
    if n == 0 {
        Seq::empty()
    } else {
        let before = law_kept_exactly_the_flagged(items, keep, (n - 1) as nat);
        let last = n - 1;
        if keep[last] {
            let positions = before.push(last);
            assert forall|i: int| 0 <= i < n && #[trigger] keep[i] implies exists|k: int|
                0 <= k < positions.len() && #[trigger] positions[k] == i by {
                if i < last {
                    let k = choose|k: int| 0 <= k < before.len() && #[trigger] before[k] == i;
                    assert(positions[k] == i);
                } else {
                    assert(positions[positions.len() - 1] == i);
                }
            }
            positions
        } else {
            assert forall|i: int| 0 <= i < n && #[trigger] keep[i] implies exists|k: int|
                0 <= k < before.len() && #[trigger] before[k] == i by {
                assert(i != last);
            }
            before
        }
    }
}

/// The entries of `items` whose flag in `keep` is set, in order.
pub fn keep_flagged<E: Copy>(items: &Vec<E>, keep: &Vec<bool>) -> (result: Vec<E>)
    requires
        items.len() == keep.len(),
    ensures
        result@ == kept(items@, keep@, items.len() as nat),
{
    let mut result: Vec<E> = Vec::new();
    let mut i: usize = 0;
    while i < items.len()
        invariant
            items.len() == keep.len(),
            i <= items.len(),
            result@ == kept(items@, keep@, i as nat),
        decreases items.len() - i,
    {
        if keep[i] {
            result.push(items[i]);
        }
        i = i + 1;
    }
    result
}

/// The object under the mouse when the right button goes down.
#[derive(Debug, Copy, Clone, PartialEq, Eq, Structural)]
pub struct Target {
    /// Its position in the lists.
    pub index: usize,
    /// Whether it is on the enemy side.
    pub enemy: bool,
    /// Whether it holds materials that can still be mined.
    pub minable: bool,
}

/// The order that a right click will give, and the objects it will go to.
pub struct RightClickOrder<P, E> {
    pub to_move: Vec<E>,
    pub command: Option<Command<P, E>>,
}

/// Works out what a right click would order.
pub struct RightClickInteractionSystem;

impl RightClickInteractionSystem {
    /// The objects that would be ordered are the ones flagged in `orderable`
    /// (selected, friendly and able to take orders). Over an enemy they
    /// attack it; over an object with materials left, those of them with a
    /// drill (`drills`) mine it; over anything else they follow it, and the
    /// objects to order stay as they were. Over empty space they move to
    /// `plane_point`, where the mouse points at the plane of movement, if
    /// there is anything to order.
    pub fn run<P: Copy, E: Copy>(
        &mut self,
        order: &mut RightClickOrder<P, E>,
        entities: &Vec<E>,
        orderable: &Vec<bool>,
        drills: &Vec<bool>,
        target: Option<Target>,
        plane_point: Option<P>,
    )
        requires
            entities.len() == orderable.len(),
            entities.len() == drills.len(),
            match target {
                Some(t) => t.index < entities.len(),
                None => true,
            },
        ensures
            match target {
                Some(t) => {
                    &&& final(order).command == Some(Command::<P, E>::GoToAnd(
                        entities[t.index as int],
                        if t.enemy {
                            Interaction::Attack
                        } else if t.minable {
                            Interaction::Mine
                        } else {
                            Interaction::Follow
                        },
                    ))
                    &&& final(order).to_move@ == if t.enemy {
                        kept(entities@, orderable@, entities.len() as nat)
                    } else if t.minable {
                        kept(
                            entities@,
                            Seq::new(entities.len() as nat, |i: int| orderable[i] && drills[i]),
                            entities.len() as nat,
                        )
                    } else {
                        old(order).to_move@
                    }
                },
                None => {
                    &&& final(order).to_move@ == kept(entities@, orderable@, entities.len() as nat)
                    &&& final(order).command == if final(order).to_move.len() > 0 {
                        match plane_point {
                            Some(point) => Some(Command::<P, E>::MoveTo(point)),
                            None => None,
                        }
                    } else {
                        None
                    }
                },
            },
    {
        match target {
            Some(t) => {
                let interaction = if t.enemy {
                    order.to_move = keep_flagged(entities, orderable);
                    Interaction::Attack
                } else if t.minable {
                    let mut miners: Vec<bool> = Vec::new();
                    let mut i: usize = 0;
                    while i < orderable.len()
                        invariant
                            entities.len() == orderable.len(),
                            entities.len() == drills.len(),
                            i <= orderable.len(),
                            miners.len() == i,
                            forall|j: int| 0 <= j < i ==> #[trigger] miners[j] == (orderable[j] && drills[j]),
                        decreases orderable.len() - i,
                    {
                        miners.push(orderable[i] && drills[i]);
                        i = i + 1;
                    }
                    proof {
                        assert(miners@ =~= Seq::new(entities.len() as nat, |i: int| orderable[i] && drills[i]));
                    }
                    order.to_move = keep_flagged(entities, &miners);
                    Interaction::Mine
                } else {
                    Interaction::Follow
                };
                order.command = Some(Command::GoToAnd(entities[t.index], interaction));
            },
            None => {
                order.to_move = keep_flagged(entities, orderable);
                order.command = if order.to_move.len() > 0 {
                    match plane_point {
                        Some(point) => Some(Command::MoveTo(point)),
                        None => None,
                    }
                } else {
                    None
                };
            },
        }
    }
}

/// Gives the ordered objects their orders.
pub struct RightClickSystem;

impl RightClickSystem {
    /// On a right click, object `to_move[k]` is given `orders[k]`, queued
    /// after its other orders when shift is held and replacing them
    /// otherwise; every other object keeps its orders.
    pub fn run<C: Copy>(
        &mut self,
        clicked: bool,
        shift: bool,
        to_move: &Vec<usize>,
        orders: &Vec<C>,
        commands: &mut Vec<Commands<C>>,
    )
        requires
            to_move.len() == orders.len(),
            forall|k: int| 0 <= k < to_move.len() ==> #[trigger] to_move[k] < old(commands).len(),
            forall|k: int, l: int| 0 <= k < l < to_move.len() ==> to_move[k] != to_move[l],
        ensures
            final(commands).len() == old(commands).len(),
            forall|k: int|
                clicked && 0 <= k < to_move.len() ==> #[trigger] final(commands)[to_move[k] as int].0@
                    == (if shift {
                    old(commands)[to_move[k] as int].0@
                } else {
                    Seq::empty()
                }).push(orders[k]),
            forall|j: int|
                0 <= j < old(commands).len() && (!clicked || !to_move@.contains(j as usize))
                    ==> #[trigger] final(commands)[j].0@ == old(commands)[j].0@,
    {
        if !clicked {
            return;
        }
        let mut k: usize = 0;
        while k < to_move.len()
            invariant
                to_move.len() == orders.len(),
                commands.len() == old(commands).len(),
                k <= to_move.len(),
                forall|m: int| 0 <= m < to_move.len() ==> #[trigger] to_move[m] < old(commands).len(),
                forall|m: int, l: int| 0 <= m < l < to_move.len() ==> to_move[m] != to_move[l],
                forall|m: int|
                    0 <= m < k ==> #[trigger] commands[to_move[m] as int].0@ == (if shift {
                        old(commands)[to_move[m] as int].0@
                    } else {
                        Seq::empty()
                    }).push(orders[m]),
                forall|j: int|
                    0 <= j < old(commands).len() && !to_move@.subrange(0, k as int).contains(j as usize)
                        ==> #[trigger] commands[j].0@ == old(commands)[j].0@,
            decreases to_move.len() - k,
        {
            let target = to_move[k];
            let ghost before = commands@;
            proof {
                assert(!to_move@.subrange(0, k as int).contains(target));
            }
            commands[target].order(shift, orders[k]);
            proof {
                assert forall|m: int| 0 <= m < k + 1 implies #[trigger] commands[to_move[m] as int].0@ == (if shift {
                    old(commands)[to_move[m] as int].0@
                } else {
                    Seq::empty()
                }).push(orders[m]) by {
                    if m < k {
                        assert(to_move[m] != target);
                    }
                }
                assert forall|j: int|
                    0 <= j < old(commands).len() && !to_move@.subrange(0, k + 1).contains(j as usize)
                        implies #[trigger] commands[j].0@ == old(commands)[j].0@ by {
                    assert(to_move@.subrange(0, k + 1)[k as int] == target);
                    assert(j != target as int);
                    if to_move@.subrange(0, k as int).contains(j as usize) {
                        assert(to_move@.subrange(0, k + 1).contains(j as usize));
                    }
                }
            }
            k = k + 1;
        }
        proof {
            assert(to_move@.subrange(0, to_move.len() as int) =~= to_move@);
        }
    }
}

} // verus!
