//! Ships: their kinds, the components they are built from, the orders they
//! are given, and the formations they fly in.
use crate::assets::{Image, Model};
use crate::maps::ID;
use vstd::prelude::*;

verus! {

/// The identifier of a ship.
#[derive(Copy, Clone, Hash, PartialEq, Eq, Debug, Default, Structural)]
pub struct ShipID(pub u32);

impl ID for ShipID {
    open spec fn index(&self) -> u32 {
        self.0
    }

    fn first() -> (id: Self) {
        ShipID(0)
    }

    fn increment(&mut self) {
        *self = ShipID(self.0 + 1)
    }

    fn to_index(&self) -> (index: u32) {
        self.0
    }
}

/// What a ship can be told to do with another object.
#[derive(Debug, Copy, Clone, PartialEq, Eq, Structural)]
pub enum Interaction {
    Follow,
    Mine,
    Attack,
}

impl Interaction {
    /// The cursor image shown while the interaction is offered.
    pub fn image(&self) -> (image: Image)
        ensures
            image == match *self {
                Interaction::Follow => Image::Move,
                Interaction::Mine => Image::Mine,
                Interaction::Attack => Image::Mine,
            },
    {
        match *self {
            Interaction::Follow => Image::Move,
            Interaction::Mine => Image::Mine,
            Interaction::Attack => Image::Mine,
        }
    }
}

/// A kind of ship component.
#[derive(Debug, Copy, Clone, PartialEq, Eq, Structural)]
pub enum ShipComponentType {
    AX2900Drive,
    HG900Drive,
    HG43WarpDrive,
    Boltor89Cannons,
    AX17KXDrive,
    FoodRecycler,
    MiningDrill,
}

impl ShipComponentType {
    /// Whether the component lets a ship warp.
    pub fn can_warp(self) -> (warps: bool)
        ensures
            warps <==> (self == ShipComponentType::HG43WarpDrive || self
                == ShipComponentType::AX17KXDrive),
    {
        match self {
            ShipComponentType::HG43WarpDrive => true,
            ShipComponentType::AX17KXDrive => true,
            _ => false,
        }
    }
}

/// A component fitted to a ship, with its age.
#[derive(Debug)]
pub struct ShipComponent {
    age: u8,
    tag: ShipComponentType,
}

impl ShipComponent {
    /// The kind of the component.
    pub closed spec fn spec_tag(&self) -> ShipComponentType {
        self.tag
    }

    /// The age of the component.
    pub closed spec fn spec_age(&self) -> u8 {
        self.age
    }

    pub fn new(tag: ShipComponentType, age: u8) -> (component: Self)
        ensures
            component.spec_tag() == tag,
            component.spec_age() == age,
    {
        Self { tag, age }
    }

    pub fn tag(&self) -> (tag: ShipComponentType)
        ensures
            tag == self.spec_tag(),
    {
        self.tag
    }
}

/// The components of a ship.
#[derive(Debug)]
pub struct Components {
    inner: Vec<ShipComponent>,
}

impl View for Components {
    type V = Seq<ShipComponent>;

    closed spec fn view(&self) -> Seq<ShipComponent> {
        self.inner@
    }
}

impl Components {
    pub fn new(inner: Vec<ShipComponent>) -> (components: Self)
        ensures
            components@ == inner@,
    {
        Self { inner }
    }

    /// The kinds of the components, in order.
    pub fn component_types(&self) -> (types: Vec<ShipComponentType>)
        ensures
            types.len() == self@.len(),
            forall|i: int| 0 <= i < types.len() ==> types[i] == #[trigger] self@[i].spec_tag(),
    {
        let mut types: Vec<ShipComponentType> = Vec::new();
        let mut i: usize = 0;
        while i < self.inner.len()
            invariant
                i <= self.inner.len(),
                types.len() == i,
                forall|j: int| 0 <= j < i ==> types[j] == #[trigger] self@[j].spec_tag(),
            decreases self.inner.len() - i,
        {
            types.push(self.inner[i].tag());
            i = i + 1;
        }
        types
    }
}

/// A kind of ship.
#[derive(Debug, Copy, Clone, PartialEq, Eq, Structural)]
pub enum ShipType {
    Fighter,
    Tanker,
    Carrier,
    Miner,
}

/// The components that a new ship of kind `tag` is fitted with, in order.
pub open spec fn default_component_types(tag: ShipType) -> Seq<ShipComponentType> {
    match tag {
        ShipType::Fighter => seq![ShipComponentType::AX2900Drive, ShipComponentType::Boltor89Cannons],
        ShipType::Tanker => seq![ShipComponentType::HG900Drive, ShipComponentType::HG43WarpDrive],
        ShipType::Carrier => seq![
            ShipComponentType::AX17KXDrive,
            ShipComponentType::AX17KXDrive,
            ShipComponentType::FoodRecycler,
        ],
        ShipType::Miner => seq![
            ShipComponentType::HG900Drive,
            ShipComponentType::HG43WarpDrive,
            ShipComponentType::MiningDrill,
        ],
    }
}

/// How many people a ship of kind `tag` can carry.
pub open spec fn crew_capacity_of(tag: ShipType) -> nat {
    match tag {
        ShipType::Fighter => 1,
        ShipType::Tanker => 10,
        ShipType::Carrier => 100,
        ShipType::Miner => 5,
    }
}

impl ShipType {
    /// The model that the ship is drawn with.
    pub fn model(&self) -> (model: Model)
        ensures
            model == match *self {
                ShipType::Fighter => Model::Fighter,
                ShipType::Tanker => Model::Tanker,
                ShipType::Carrier => Model::Carrier,
                ShipType::Miner => Model::Miner,
            },
    {
        match *self {
            ShipType::Fighter => Model::Fighter,
            ShipType::Tanker => Model::Tanker,
            ShipType::Carrier => Model::Carrier,
            ShipType::Miner => Model::Miner,
        }
    }

    /// How many people the ship can carry.
    pub fn crew_capacity(&self) -> (capacity: usize)
        ensures
            capacity == crew_capacity_of(*self),
    {
        match *self {
            ShipType::Fighter => 1,
            ShipType::Tanker => 10,
            ShipType::Carrier => 100,
            ShipType::Miner => 5,
        }
    }

    /// The components that a new ship of this kind is fitted with, all of age `age`.
    pub fn default_components(&self, age: u8) -> (components: Components)
        ensures
            components@.len() == default_component_types(*self).len(),
            forall|i: int|
                0 <= i < components@.len() ==> {
                    &&& (#[trigger] components@[i]).spec_tag() == default_component_types(*self)[i]
                    &&& components@[i].spec_age() == age
                },
    {
        let tags: Vec<ShipComponentType> = match *self {
            ShipType::Fighter => vec![ShipComponentType::AX2900Drive, ShipComponentType::Boltor89Cannons],
            ShipType::Tanker => vec![ShipComponentType::HG900Drive, ShipComponentType::HG43WarpDrive],
            ShipType::Carrier => vec![
                ShipComponentType::AX17KXDrive,
                ShipComponentType::AX17KXDrive,
                ShipComponentType::FoodRecycler,
            ],
            ShipType::Miner => vec![
                ShipComponentType::HG900Drive,
                ShipComponentType::HG43WarpDrive,
                ShipComponentType::MiningDrill,
            ],
        };
        proof {
            assert(tags@ =~= default_component_types(*self));
        }
        let mut inner: Vec<ShipComponent> = Vec::new();
        let mut i: usize = 0;
        while i < tags.len()
            invariant
                i <= tags.len(),
                inner.len() == i,
                forall|j: int|
                    0 <= j < i ==> {
                        &&& (#[trigger] inner@[j]).spec_tag() == tags@[j]
                        &&& inner@[j].spec_age() == age
                    },
            decreases tags.len() - i,
        {
            inner.push(ShipComponent::new(tags[i], age));
            i = i + 1;
        }
        Components::new(inner)
    }
}

/// An order for a ship: to move to a point of type `P`, or to go to an
/// object of type `E` and interact with it.
#[derive(Debug, Copy, Clone)]
pub enum Command<P, E> {
    MoveTo(P),
    GoToAnd(E, Interaction),
}

impl<P: Copy> Command<P, usize> {
    /// Where the order leads: the point to move to, or the position of the
    /// object to go to, looked up in `positions`, which must hold it.
    pub fn point(&self, positions: &Vec<Option<P>>) -> (point: P)
        requires
            match *self {
                Command::GoToAnd(e, _) => e < positions.len() && positions[e as int] is Some,
                Command::MoveTo(_) => true,
            },
        ensures
            point == match *self {
                Command::MoveTo(p) => p,
                Command::GoToAnd(e, _) => positions[e as int]->0,
            },
    {
        match *self {
            Command::MoveTo(p) => p,
            Command::GoToAnd(e, _) => positions[e].unwrap(),
        }
    }
}

/// The queue of orders of a ship; the first is the one being carried out.
pub struct Commands<C>(pub Vec<C>);

impl<C> Commands<C> {
    /// Gives the ship `command`: with `shift` held it is queued after the
    /// others, without it it replaces them all.
    pub fn order(&mut self, shift: bool, command: C)
        ensures
            final(self).0@ == (if shift {
                old(self).0@
            } else {
                Seq::empty()
            }).push(command),
    {
        if !shift {
            self.0.clear();
        }
        self.0.push(command);
    }
}

/// How a group of ships lines up when it is sent somewhere.
#[derive(Debug, Copy, Clone, PartialEq, Eq, Structural)]
pub enum Formation {
    Screen,
    DeltaWing,
}

/// The formations in the order in which the player steps through them.
pub open spec fn formation_list() -> Seq<Formation> {
    seq![Formation::Screen, Formation::DeltaWing]
}

/// Where a formation stands in the list.
pub open spec fn formation_position(formation: Formation) -> int {
    match formation {
        Formation::Screen => 0,
        Formation::DeltaWing => 1,
    }
}

impl Formation {
    /// The formation that a new game starts with: the first of the list.
    pub fn default() -> (formation: Self)
        ensures
            formation == formation_list()[0],
    {
        Formation::Screen
    }

    /// Steps back to the previous formation of the list, wrapping around.
    pub fn rotate_left(&mut self)
        ensures
            formation_position(*final(self)) == (formation_position(*old(self)) + formation_list().len() - 1)
                % (formation_list().len() as int),
            *final(self) != *old(self),
    {
        proof {
            assert(formation_list().len() == 2);
        }
        *self = match *self {
            Formation::Screen => Formation::DeltaWing,
            Formation::DeltaWing => Formation::Screen,
        };
    }

    /// Steps on to the next formation of the list, wrapping around.
    pub fn rotate_right(&mut self)
        ensures
            formation_position(*final(self)) == (formation_position(*old(self)) + 1) % (
            formation_list().len() as int),
            *final(self) != *old(self),
    {
        proof {
            assert(formation_list().len() == 2);
        }
        *self = match *self {
            Formation::Screen => Formation::DeltaWing,
            Formation::DeltaWing => Formation::Screen,
        };
    }
}

/// A step back undoes a step on: the formation that `rotate_left` leaves
/// after `rotate_right` turned `start` into `next` is `start` again.
pub proof fn law_formation_rotate_inverse(start: Formation, next: Formation, back: Formation)
    requires
        formation_position(next) == (formation_position(start) + 1) % (formation_list().len() as int),
        formation_position(back) == (formation_position(next) + formation_list().len() - 1) % (
        formation_list().len() as int),
    ensures
        back == start,
{
    assert(formation_list().len() == 2);
    assert(formation_position(back) == formation_position(start));
    match (start, back) {
        (Formation::Screen, Formation::Screen) | (Formation::DeltaWing, Formation::DeltaWing) => {},
        _ => assert(false),
    }
}

/// Every formation stands in the list at its own position.
pub proof fn law_formation_list(formation: Formation)
    ensures
        0 <= formation_position(formation) < formation_list().len(),
        formation_list()[formation_position(formation)] == formation,
{
}

} // verus!
