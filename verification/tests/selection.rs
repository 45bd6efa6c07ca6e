use space_game::selection::{
    AveragePositionSystem, DragSelectSystem, LeftClickSystem, MiddleClickSystem, Selectable, Side,
    StepCameraSystem,
};

fn sel(selected: bool, camera_following: bool) -> Selectable {
    Selectable { selected, camera_following }
}

fn selected(objects: &[Selectable]) -> Vec<bool> {
    objects.iter().map(|s| s.selected).collect()
}

#[test]
fn a_new_selectable_is_not_followed() {
    assert_eq!(Selectable::new(true), sel(true, false));
    assert_eq!(Selectable::new(false), sel(false, false));
}

#[test]
fn a_click_selects_only_the_object_under_the_mouse() {
    let mut objects = vec![sel(true, true), sel(false, false), sel(true, false)];
    LeftClickSystem.run(true, false, Some(1), &mut objects);
    assert_eq!(selected(&objects), vec![false, true, false]);
    assert!(objects[0].camera_following);
}

#[test]
fn a_click_on_a_selected_object_keeps_only_it_selected() {
    let mut objects = vec![sel(true, false), sel(true, false)];
    LeftClickSystem.run(true, false, Some(0), &mut objects);
    assert_eq!(selected(&objects), vec![true, false]);
}

#[test]
fn a_click_on_empty_space_clears_the_selection() {
    let mut objects = vec![sel(true, false), sel(true, false)];
    LeftClickSystem.run(true, false, None, &mut objects);
    assert_eq!(selected(&objects), vec![false, false]);
}

#[test]
fn a_shift_click_toggles_the_object_under_the_mouse() {
    let mut objects = vec![sel(true, false), sel(false, false), sel(true, false)];
    LeftClickSystem.run(true, true, Some(1), &mut objects);
    assert_eq!(selected(&objects), vec![true, true, true]);
    LeftClickSystem.run(true, true, Some(2), &mut objects);
    assert_eq!(selected(&objects), vec![true, true, false]);
}

#[test]
fn without_a_click_nothing_changes() {
    let mut objects = vec![sel(true, false), sel(false, true)];
    LeftClickSystem.run(false, false, Some(1), &mut objects);
    assert_eq!(objects, vec![sel(true, false), sel(false, true)]);
}

#[test]
fn a_middle_click_follows_the_selection() {
    let mut objects = vec![sel(true, false), sel(false, true)];
    MiddleClickSystem.run(false, &mut objects);
    assert_eq!(objects, vec![sel(true, false), sel(false, true)]);
    MiddleClickSystem.run(true, &mut objects);
    assert_eq!(objects, vec![sel(true, true), sel(false, false)]);
}

#[test]
fn a_drag_selects_what_shows_inside_the_rectangle() {
    let mut objects = vec![sel(true, false), sel(false, false), sel(true, false)];
    let inside = vec![Some(false), Some(true), None];
    DragSelectSystem.run(true, false, &inside, &mut objects);
    assert_eq!(selected(&objects), vec![false, true, false]);
}

#[test]
fn a_shift_drag_toggles_what_shows_inside_and_keeps_the_rest() {
    let mut objects = vec![sel(true, false), sel(false, false), sel(true, false), sel(true, false)];
    let inside = vec![Some(false), Some(true), Some(true), None];
    DragSelectSystem.run(true, true, &inside, &mut objects);
    assert_eq!(selected(&objects), vec![true, true, false, true]);
}

#[test]
fn without_a_finished_drag_nothing_changes() {
    let mut objects = vec![sel(true, false), sel(false, false)];
    DragSelectSystem.run(false, false, &vec![Some(false), Some(true)], &mut objects);
    assert_eq!(selected(&objects), vec![true, false]);
}

#[test]
fn the_camera_keeps_following_until_moved_by_hand() {
    let mut objects = vec![sel(true, true), sel(false, false), sel(false, true)];
    let followed = StepCameraSystem.run(false, &mut objects);
    assert_eq!(followed, vec![0, 2]);
    let followed = StepCameraSystem.run(true, &mut objects);
    assert!(followed.is_empty());
    assert_eq!(objects, vec![sel(true, false), sel(false, false), sel(false, false)]);
}

#[test]
fn the_centre_of_the_selection_counts_only_friendly_objects() {
    let objects = vec![sel(true, false), sel(true, false), sel(false, false), sel(true, false)];
    let sides = vec![Side::Friendly, Side::Enemy, Side::Friendly, Side::Friendly];
    assert_eq!(AveragePositionSystem.run(&objects, &sides), vec![0, 3]);
    assert!(AveragePositionSystem.run(&vec![], &vec![]).is_empty());
}

#[test]
fn a_second_shift_click_on_the_same_object_undoes_the_first() {
    let start = vec![sel(true, false), sel(false, true), sel(true, false)];
    let mut objects = start.clone();
    LeftClickSystem.run(true, true, Some(1), &mut objects);
    LeftClickSystem.run(true, true, Some(1), &mut objects);
    assert_eq!(objects, start);
}

#[test]
fn a_second_shift_drag_over_the_same_rectangle_undoes_the_first() {
    let start = vec![sel(true, false), sel(false, false), sel(true, true), sel(false, false)];
    let inside = vec![Some(true), Some(true), Some(false), None];
    let mut objects = start.clone();
    DragSelectSystem.run(true, true, &inside, &mut objects);
    assert_ne!(objects, start);
    DragSelectSystem.run(true, true, &inside, &mut objects);
    assert_eq!(objects, start);
}

#[test]
fn a_plain_drag_forgets_the_earlier_selection() {
    let inside = vec![Some(true), Some(false), None];
    let mut a = vec![sel(true, false), sel(true, false), sel(true, false)];
    let mut b = vec![sel(false, false), sel(false, false), sel(false, false)];
    DragSelectSystem.run(true, false, &inside, &mut a);
    DragSelectSystem.run(true, false, &inside, &mut b);
    assert_eq!(selected(&a), vec![true, false, false]);
    assert_eq!(selected(&a), selected(&b));
}
