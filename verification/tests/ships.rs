use space_game::assets::{Image, Model};
use space_game::maps::ID;
use space_game::ships::ShipComponentType::{
    AX17KXDrive, AX2900Drive, Boltor89Cannons, FoodRecycler, HG43WarpDrive, HG900Drive, MiningDrill,
};
use space_game::ships::{
    Commands, Components, Formation, Interaction, ShipComponent, ShipComponentType, ShipID, ShipType,
};

#[test]
fn only_warp_drives_can_warp() {
    assert!(ShipComponentType::HG43WarpDrive.can_warp());
    assert!(ShipComponentType::AX17KXDrive.can_warp());
    assert!(!ShipComponentType::AX2900Drive.can_warp());
    assert!(!ShipComponentType::HG900Drive.can_warp());
    assert!(!ShipComponentType::Boltor89Cannons.can_warp());
    assert!(!ShipComponentType::FoodRecycler.can_warp());
    assert!(!ShipComponentType::MiningDrill.can_warp());
}

#[test]
fn a_component_keeps_its_kind() {
    let component = ShipComponent::new(ShipComponentType::MiningDrill, 4);
    assert_eq!(component.tag(), ShipComponentType::MiningDrill);
    let components = Components::new(vec![
        ShipComponent::new(ShipComponentType::FoodRecycler, 1),
        component,
    ]);
    assert_eq!(
        components.component_types(),
        vec![ShipComponentType::FoodRecycler, ShipComponentType::MiningDrill]
    );
}

#[test]
fn each_kind_of_ship_has_its_default_components() {
    assert_eq!(ShipType::Fighter.default_components(0).component_types(), vec![AX2900Drive, Boltor89Cannons]);
    assert_eq!(ShipType::Tanker.default_components(0).component_types(), vec![HG900Drive, HG43WarpDrive]);
    assert_eq!(
        ShipType::Carrier.default_components(3).component_types(),
        vec![AX17KXDrive, AX17KXDrive, FoodRecycler]
    );
    assert_eq!(
        ShipType::Miner.default_components(9).component_types(),
        vec![HG900Drive, HG43WarpDrive, MiningDrill]
    );
}

#[test]
fn crew_capacity_and_model_by_kind() {
    assert_eq!(ShipType::Fighter.crew_capacity(), 1);
    assert_eq!(ShipType::Tanker.crew_capacity(), 10);
    assert_eq!(ShipType::Carrier.crew_capacity(), 100);
    assert_eq!(ShipType::Miner.crew_capacity(), 5);
    assert_eq!(ShipType::Fighter.model(), Model::Fighter);
    assert_eq!(ShipType::Tanker.model(), Model::Tanker);
    assert_eq!(ShipType::Carrier.model(), Model::Carrier);
    assert_eq!(ShipType::Miner.model(), Model::Miner);
}

#[test]
fn each_interaction_shows_its_cursor() {
    assert_eq!(Interaction::Follow.image(), Image::Move);
    assert_eq!(Interaction::Mine.image(), Image::Mine);
    assert_eq!(Interaction::Attack.image(), Image::Mine);
}

#[test]
fn an_order_with_shift_is_queued_and_without_it_replaces() {
    let mut commands = Commands(vec!['a', 'b']);
    commands.order(true, 'c');
    assert_eq!(commands.0, vec!['a', 'b', 'c']);
    commands.order(false, 'd');
    assert_eq!(commands.0, vec!['d']);
}

#[test]
fn formations_step_round_in_both_directions() {
    let mut formation = Formation::default();
    assert_eq!(formation, Formation::Screen);
    formation.rotate_right();
    assert_eq!(formation, Formation::DeltaWing);
    formation.rotate_right();
    assert_eq!(formation, Formation::Screen);
    formation.rotate_left();
    assert_eq!(formation, Formation::DeltaWing);
    formation.rotate_left();
    assert_eq!(formation, Formation::Screen);
}

#[test]
fn ship_ids_count_up_from_the_first() {
    let mut id = ShipID::first();
    assert_eq!(id, ShipID(0));
    id.increment();
    id.increment();
    assert_eq!(id, ShipID(2));
    assert_eq!(id.to_index(), 2);
}
