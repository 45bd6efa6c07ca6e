//! Who fires and who rams: the decisions of the combat systems.
//!
//! The systems see the objects of the game as parallel lists: position `i`
//! of each list describes the same object.
use vstd::prelude::*;

verus! {

/// The object that an object is attacking, and whether it attacks by ramming it.
#[derive(Debug, Copy, Clone, PartialEq, Eq, Structural)]
pub struct AttackTarget {
    pub entity: usize,
    pub kamikaze: bool,
}

/// A shot: the object that fires a missile and the object that the missile chases.
#[derive(Debug, Copy, Clone, PartialEq, Eq, Structural)]
pub struct Shot {
    pub attacker: usize,
    pub target: usize,
}

/// Whether an object fires: it has a target, its weapon has reloaded
/// (`ready`) and the target is within range (`in_range`).
pub open spec fn fires(target: Option<AttackTarget>, ready: bool, in_range: bool) -> bool {
    target is Some && ready && in_range
}

/// The shots fired by the objects before position `n`, in order.
pub open spec fn shots_fired(
    targets: Seq<Option<AttackTarget>>,
    ready: Seq<bool>,
    in_range: Seq<bool>,
    n: nat,
) -> Seq<Shot>
    decreases n,
{
    if n == 0 {
        Seq::empty()
    } else {
        let i = n - 1;
        let before = shots_fired(targets, ready, in_range, i as nat);
        if fires(targets[i], ready[i], in_range[i]) {
            before.push(Shot { attacker: i as usize, target: targets[i]->Some_0.entity })
        } else {
            before
        }
    }
}

/// Fires missiles from the objects that can attack.
pub struct ShootStuffSystem;

impl ShootStuffSystem {
    /// The shots fired in this frame: each object with a target, a reloaded
    /// weapon and the target in range fires one missile at it. The objects
    /// that can attack at all are those with an entry in `ready`.
    pub fn run(&mut self, targets: &Vec<Option<AttackTarget>>, ready: &Vec<bool>, in_range: &Vec<bool>) -> (shots: Vec<Shot>)
        requires
            targets.len() == ready.len(),
            targets.len() == in_range.len(),
        ensures
            shots@ == shots_fired(targets@, ready@, in_range@, targets.len() as nat),
    {
        let mut shots: Vec<Shot> = Vec::new();
        let mut i: usize = 0;
        while i < targets.len()
            invariant
                targets.len() == ready.len(),
                targets.len() == in_range.len(),
                i <= targets.len(),
                shots@ == shots_fired(targets@, ready@, in_range@, i as nat),
            decreases targets.len() - i,
        {
            match targets[i] {
                Some(target) => {
                    if ready[i] && in_range[i] {
                        shots.push(Shot { attacker: i, target: target.entity });
                    }
                },
                None => {},
            }
            i = i + 1;
        }
        shots
    }
}

/// What a ramming object does in a frame.
#[derive(Debug, Copy, Clone, PartialEq, Eq, Structural)]
pub enum Ram {
    /// It hits its target: the target takes damage and the rammer is spent.
    Hit(usize),
    /// It heads for its target.
    Chase(usize),
    /// Its target is gone: it stops seeking.
    Stop,
}

/// What an object does, given its target, whether the target still exists
/// (`alive`) and whether the two touch (`touching`).
pub open spec fn ram_action(target: Option<AttackTarget>, alive: bool, touching: bool) -> Option<Ram> {
    match target {
        Some(t) => if !t.kamikaze {
            None
        } else if !alive {
            Some(Ram::Stop)
        } else if touching {
            Some(Ram::Hit(t.entity))
        } else {
            Some(Ram::Chase(t.entity))
        },
        None => None,
    }
}

/// A rammer whose target is gone stops, whether or not it touches where the
/// target was; a live target is hit on touch and chased otherwise; an
/// attacker that does not ram, or has no target, does nothing here.
pub proof fn law_ram_outcomes(t: AttackTarget, alive: bool, touching: bool)
    ensures
        t.kamikaze && !alive ==> ram_action(Some(t), alive, touching) == Some(Ram::Stop),
        t.kamikaze && alive && touching ==> ram_action(Some(t), alive, touching) == Some(
            Ram::Hit(t.entity),
        ),
        t.kamikaze && alive && !touching ==> ram_action(Some(t), alive, touching) == Some(
            Ram::Chase(t.entity),
        ),
        !t.kamikaze ==> ram_action(Some(t), alive, touching) is None,
        ram_action(None, alive, touching) is None,
{
}

/// Steers missiles into their targets.
pub struct KamikazeSystem;

impl KamikazeSystem {
    /// For each object that rams its target: whether it hits, chases or
    /// stops; `None` for the objects that do not ram. `target_alive` says
    /// whether each object's target still exists, `touching` whether the two touch.
    pub fn run(&mut self, targets: &Vec<Option<AttackTarget>>, target_alive: &Vec<bool>, touching: &Vec<bool>) -> (actions: Vec<Option<Ram>>)
        requires
            targets.len() == target_alive.len(),
            targets.len() == touching.len(),
        ensures
            actions.len() == targets.len(),
            forall|i: int|
                0 <= i < targets.len() ==> #[trigger] actions[i] == ram_action(targets[i], target_alive[i], touching[i]),
    {
        let mut actions: Vec<Option<Ram>> = Vec::new();
        let mut i: usize = 0;
        while i < targets.len()
            invariant
                targets.len() == target_alive.len(),
                targets.len() == touching.len(),
                i <= targets.len(),
                actions.len() == i,
                forall|j: int|
                    0 <= j < i ==> #[trigger] actions[j] == ram_action(targets[j], target_alive[j], touching[j]),
            decreases targets.len() - i,
        {
            let action = match targets[i] {
                Some(t) => if !t.kamikaze {
                    None
                } else if !target_alive[i] {
                    Some(Ram::Stop)
                } else if touching[i] {
                    Some(Ram::Hit(t.entity))
                } else {
                    Some(Ram::Chase(t.entity))
                },
                None => None,
            };
            actions.push(action);
            i = i + 1;
        }
        actions
    }
}

} // verus!
