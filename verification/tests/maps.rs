use space_game::maps::{AutoIDMap, IDed, ID};
use space_game::people::{Occupation, Person, PersonID};
use space_game::ships::ShipID;

#[test]
fn push_hands_out_ids_in_sequence() {
    let mut people: AutoIDMap<PersonID, Person> = AutoIDMap::new();
    let a = people.push(Person::new(Occupation::Worker, ShipID(3)));
    let b = people.push(Person::new(Occupation::Pilot, ShipID(4)));
    assert_eq!(a, PersonID(0));
    assert_eq!(b, PersonID(1));
    assert_eq!(people.len(), 2);
}

#[test]
fn get_after_push_finds_the_item_with_its_id() {
    let mut people: AutoIDMap<PersonID, Person> = AutoIDMap::new();
    let id = people.push(Person::new(Occupation::Marine, ShipID(7)));
    let person = people.get(id).unwrap();
    assert_eq!(person.get_id(), id);
    assert_eq!(person.occupation(), Occupation::Marine);
    assert_eq!(person.ship(), ShipID(7));
    assert!(people.get(PersonID(1)).is_none());
}

#[test]
fn iter_gives_the_values_in_the_order_of_their_ids() {
    let mut people: AutoIDMap<PersonID, Person> = AutoIDMap::with_capacity(4);
    people.push(Person::new(Occupation::Worker, ShipID(0)));
    people.push(Person::new(Occupation::Pilot, ShipID(1)));
    people.push(Person::new(Occupation::Engineer, ShipID(2)));
    let ids: Vec<PersonID> = people.iter().iter().map(|p| p.get_id()).collect();
    assert_eq!(ids, vec![PersonID(0), PersonID(1), PersonID(2)]);
    let ships: Vec<ShipID> = people.iter().iter().map(|p| p.ship()).collect();
    assert_eq!(ships, vec![ShipID(0), ShipID(1), ShipID(2)]);
}

#[test]
fn from_iter_numbers_the_items_in_order() {
    let people: AutoIDMap<PersonID, Person> = AutoIDMap::from_iter(vec![
        Person::new(Occupation::Marine, ShipID(5)),
        Person::new(Occupation::Government, ShipID(6)),
    ]);
    assert_eq!(people.len(), 2);
    assert_eq!(people.index(PersonID(0)).occupation(), Occupation::Marine);
    assert_eq!(people.index(PersonID(1)).occupation(), Occupation::Government);
    assert_eq!(people.index(PersonID(1)).get_id(), PersonID(1));
}

#[test]
fn values_change_in_place() {
    let mut people: AutoIDMap<PersonID, Person> = AutoIDMap::new();
    let id = people.push(Person::new(Occupation::Worker, ShipID(1)));
    people.get_mut(id).unwrap().age = 31;
    people.index_mut(id).ship = ShipID(9);
    assert_eq!(people.index(id).age, 31);
    assert_eq!(people.index(id).ship(), ShipID(9));
    assert!(people.get_mut(PersonID(4)).is_none());
    assert_eq!(people.len(), 1);
}

#[test]
fn iter_mut_changes_every_value() {
    let mut people: AutoIDMap<PersonID, Person> = AutoIDMap::new();
    people.push(Person::new(Occupation::Worker, ShipID(1)));
    people.push(Person::new(Occupation::Pilot, ShipID(2)));
    people.iter_mut(|mut p: Person| {
        p.age = 40;
        p
    });
    assert!(people.iter().iter().all(|p| p.age == 40));
    assert_eq!(people.index(PersonID(1)).occupation(), Occupation::Pilot);
}

#[test]
fn person_ids_count_up_from_the_first() {
    let mut id = PersonID::first();
    id.increment();
    assert_eq!(id, PersonID(1));
    assert_eq!(id.to_index(), 1);
    let mut person = Person::new(Occupation::Worker, ShipID(0));
    person.set_id(PersonID(7));
    assert_eq!(person.get_id(), PersonID(7));
}

#[test]
fn values_are_stored_exactly_under_the_ids_handed_out() {
    let mut people: AutoIDMap<PersonID, Person> = AutoIDMap::new();
    for _ in 0..3 {
        people.push(Person::new(Occupation::Worker, ShipID(0)));
    }
    assert_eq!(people.iter().len(), people.len());
    for k in 0..3 {
        assert!(people.get(PersonID(k)).is_some());
    }
    assert!(people.get(PersonID(3)).is_none());
}
