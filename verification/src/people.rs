//! The crew: people, what they do, and which ship they belong to.
use crate::maps::{IDed, ID};
use crate::ships::ShipID;
use vstd::prelude::*;

verus! {

/// What a person does aboard.
#[derive(Debug, Copy, Clone, PartialEq, Eq, Structural)]
pub enum Occupation {
    Worker,
    Pilot,
    Engineer,
    Marine,
    Government,
}

/// A member of the crew.
pub struct Person {
    pub id: PersonID,
    pub occupation: Occupation,
    pub age: u16,
    pub ship: ShipID,
}

impl Person {
    /// A new crew member of thirty, on board `ship`, not yet given an identifier.
    pub fn new(occupation: Occupation, ship: ShipID) -> (person: Self)
        ensures
            person.occupation == occupation,
            person.ship == ship,
            person.age == 30,
            person.id == PersonID(0),
    {
        Self { occupation, ship, age: 30, id: PersonID(0) }
    }

    /// The ship that the person belongs to.
    pub fn ship(&self) -> (ship: ShipID)
        ensures
            ship == self.ship,
    {
        self.ship
    }

    /// What the person does.
    pub fn occupation(&self) -> (occupation: Occupation)
        ensures
            occupation == self.occupation,
    {
        self.occupation
    }
}

impl IDed<PersonID> for Person {
    open spec fn id_of(&self) -> PersonID {
        self.id
    }

    open spec fn with_id(self, id: PersonID) -> Self {
        Person { id, ..self }
    }

    fn set_id(&mut self, id: PersonID) {
        self.id = id;
    }

    fn get_id(&self) -> (id: PersonID) {
        self.id
    }
}

/// The identifier of a person.
#[derive(Copy, Clone, Hash, PartialEq, Eq, Debug, Default, Structural)]
pub struct PersonID(pub u32);

impl ID for PersonID {
    open spec fn index(&self) -> u32 {
        self.0
    }

    fn first() -> (id: Self) {
        PersonID(0)
    }

    fn increment(&mut self) {
        *self = PersonID(self.0 + 1)
    }

    fn to_index(&self) -> (index: u32) {
        self.0
    }
}

} // verus!
