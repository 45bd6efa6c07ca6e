use space_game::combat::{AttackTarget, KamikazeSystem, Ram, ShootStuffSystem, Shot};

fn target(entity: usize, kamikaze: bool) -> Option<AttackTarget> {
    Some(AttackTarget { entity, kamikaze })
}

#[test]
fn only_ready_attackers_with_a_target_in_range_fire() {
    let targets = vec![target(5, false), None, target(6, false), target(7, false), target(8, false)];
    let ready = vec![true, true, false, true, true];
    let in_range = vec![true, true, true, false, true];
    let shots = ShootStuffSystem.run(&targets, &ready, &in_range);
    assert_eq!(shots, vec![Shot { attacker: 0, target: 5 }, Shot { attacker: 4, target: 8 }]);
}

#[test]
fn nobody_fires_without_attackers() {
    assert!(ShootStuffSystem.run(&vec![], &vec![], &vec![]).is_empty());
}

#[test]
fn missiles_hit_chase_or_stop() {
    let targets = vec![target(3, true), target(3, true), target(4, true), target(4, false), None];
    let alive = vec![true, true, false, true, true];
    let touching = vec![true, false, true, true, true];
    let actions = KamikazeSystem.run(&targets, &alive, &touching);
    assert_eq!(actions, vec![Some(Ram::Hit(3)), Some(Ram::Chase(3)), Some(Ram::Stop), None, None]);
}
