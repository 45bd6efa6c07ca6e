use space_game::fleet::starting_fleet;
use space_game::people::Occupation;
use space_game::selection::Side;
use space_game::ships::ShipType;

#[test]
fn the_starting_fleet_has_its_ships_in_order() {
    let fleet = starting_fleet();
    assert_eq!(fleet.len(), 25);
    assert_eq!((fleet[0].tag, fleet[0].side), (ShipType::Carrier, Side::Friendly));
    assert_eq!((fleet[1].tag, fleet[1].side), (ShipType::Tanker, Side::Friendly));
    for i in 2..22 {
        assert_eq!((fleet[i].tag, fleet[i].side, fleet[i].slot), (ShipType::Fighter, Side::Friendly, i - 2));
        assert_eq!(fleet[i].crew, vec![Occupation::Pilot]);
    }
    assert_eq!((fleet[22].tag, fleet[22].slot), (ShipType::Miner, 0));
    assert_eq!((fleet[23].tag, fleet[23].slot), (ShipType::Miner, 1));
    assert_eq!((fleet[24].tag, fleet[24].side), (ShipType::Fighter, Side::Enemy));
    assert!(fleet[24].crew.is_empty());
}

#[test]
fn the_carrier_and_the_tanker_carry_their_crews() {
    let fleet = starting_fleet();
    let carrier = &fleet[0].crew;
    let count = |o: Occupation| carrier.iter().filter(|c| **c == o).count();
    assert_eq!(carrier.len(), 100);
    assert_eq!(count(Occupation::Worker), 45);
    assert_eq!(count(Occupation::Marine), 20);
    assert_eq!(count(Occupation::Pilot), 25);
    assert_eq!(count(Occupation::Government), 10);
    assert_eq!(fleet[1].crew, vec![Occupation::Worker; 10]);
}

#[test]
fn every_starting_crew_fits_its_ship() {
    for plan in starting_fleet() {
        assert!(plan.crew.len() <= plan.tag.crew_capacity());
    }
}
