use space_game::controls::{Controls, MouseState, DRAG_FRAMES};
use space_game::resources::{Help, Paused};
use space_game::selection::Selectable;
use space_game::ships::Formation;
use space_game::systems::{EventHandlerSystem, Key, MouseButton, MouseMove, Switches, UpdateControlsSystem};

type Point = (i32, i32);

#[test]
fn press_and_release_is_a_click_that_lasts_one_frame() {
    let mut state: MouseState<Point> = MouseState::Up;
    state.handle((5, 6), true);
    assert!(matches!(state, MouseState::Down(0, (5, 6))));
    assert_eq!(state.press_point(), Some((5, 6)));
    state.handle((5, 6), false);
    assert!(state.is_clicked());
    assert_eq!(state.press_point(), None);
    state.update(false);
    assert!(matches!(state, MouseState::Up));
}

#[test]
fn moving_far_enough_while_down_starts_a_drag_from_the_press_point() {
    let mut state: MouseState<Point> = MouseState::Up;
    state.handle_down((1, 2));
    state.update(false);
    assert!(matches!(state, MouseState::Down(1, (1, 2))));
    state.update(true);
    assert!(state.is_dragging());
    assert!(matches!(state, MouseState::Dragging((1, 2))));
    state.handle((40, 40), false);
    assert!(matches!(state, MouseState::Dragged((1, 2))));
    state.update(false);
    assert!(matches!(state, MouseState::Up));
}

#[test]
fn holding_still_turns_into_a_drag_only_after_the_drag_frames() {
    let mut state: MouseState<Point> = MouseState::Down(0, (3, 3));
    for _ in 0..(DRAG_FRAMES + 1) {
        state.update(false);
        assert!(!state.is_dragging());
    }
    assert!(matches!(state, MouseState::Down(11, (3, 3))));
    state.update(false);
    assert!(matches!(state, MouseState::Dragging((3, 3))));
}

#[test]
fn releasing_a_button_that_is_up_leaves_it_up() {
    let mut state: MouseState<Point> = MouseState::Up;
    state.handle_up();
    assert!(matches!(state, MouseState::Up));
    let mut clicked: MouseState<Point> = MouseState::Clicked;
    clicked.handle_up();
    assert!(matches!(clicked, MouseState::Up));
}

#[test]
fn new_controls_have_every_button_up() {
    let controls: Controls<Point> = Controls::new((0, 0));
    assert!(matches!(controls.left_state, MouseState::Up));
    assert!(matches!(controls.middle_state, MouseState::Up));
    assert!(matches!(controls.right_state, MouseState::Up));
    assert!(!controls.shift && !controls.delete && !controls.save && !controls.load);
    assert_eq!(controls.mouse(), (0, 0));
    assert_eq!(controls.press_points(), (None, None, None));
}

#[test]
fn buttons_press_at_the_mouse_position() {
    let mut controls: Controls<Point> = Controls::new((0, 0));
    controls.set_mouse((10, 20));
    controls.handle_left(true);
    controls.handle_right(true);
    assert_eq!(controls.press_points(), (Some((10, 20)), None, Some((10, 20))));
    controls.handle_left(false);
    controls.handle_right(false);
    assert!(controls.left_clicked());
    assert!(controls.right_clicked());
    assert!(!controls.middle_clicked());
    controls.update(false, false, false);
    assert!(!controls.left_clicked());
    assert!(!controls.right_clicked());
}

#[test]
fn a_left_drag_is_reported_while_under_way_and_when_it_ends() {
    let mut controls: Controls<Point> = Controls::new((2, 2));
    controls.handle_left(true);
    controls.update(true, false, false);
    assert_eq!(controls.left_dragging(), Some((2, 2)));
    assert_eq!(controls.left_dragged(), None);
    controls.set_mouse((30, 30));
    controls.handle_left(false);
    assert_eq!(controls.left_dragging(), None);
    assert_eq!(controls.left_dragged(), Some((2, 2)));
    controls.update(false, false, false);
    assert_eq!(controls.left_dragged(), None);
}

#[test]
fn a_right_drag_is_reported() {
    let mut controls: Controls<Point> = Controls::new((0, 0));
    controls.handle_right(true);
    assert!(!controls.right_dragging());
    controls.update(false, false, true);
    assert!(controls.right_dragging());
}

#[test]
fn an_update_lets_go_of_save_and_load() {
    let mut controls: Controls<Point> = Controls::new((0, 0));
    controls.save = true;
    controls.load = true;
    controls.shift = true;
    let mut system = UpdateControlsSystem;
    system.run(&mut controls, false, false, false);
    assert!(!controls.save);
    assert!(!controls.load);
    assert!(controls.shift);
}

fn switches() -> Switches {
    Switches { paused: Paused(false), help: Help(false), debug: space_game::resources::Debug(false), formation: Formation::Screen }
}

#[test]
fn keys_toggle_the_switches_on_a_press_only() {
    let mut controls: Controls<Point> = Controls::new((0, 0));
    let mut switches = switches();
    let mut selectable = vec![Selectable::new(true)];
    let mut system = EventHandlerSystem;
    system.handle_key(Key::P, true, &mut controls, &mut switches, &mut selectable);
    assert!(switches.paused.0);
    system.handle_key(Key::P, false, &mut controls, &mut switches, &mut selectable);
    assert!(switches.paused.0);
    system.handle_key(Key::P, true, &mut controls, &mut switches, &mut selectable);
    assert!(!switches.paused.0);
    system.handle_key(Key::H, true, &mut controls, &mut switches, &mut selectable);
    assert!(switches.help.0);
    system.handle_key(Key::Slash, true, &mut controls, &mut switches, &mut selectable);
    assert!(switches.debug.0);
    system.handle_key(Key::Period, true, &mut controls, &mut switches, &mut selectable);
    assert_eq!(switches.formation, Formation::DeltaWing);
    system.handle_key(Key::Comma, true, &mut controls, &mut switches, &mut selectable);
    assert_eq!(switches.formation, Formation::Screen);
}

#[test]
fn movement_keys_are_held_while_pressed() {
    let mut controls: Controls<Point> = Controls::new((0, 0));
    let mut switches = switches();
    let mut selectable: Vec<Selectable> = Vec::new();
    let mut system = EventHandlerSystem;
    system.handle_key(Key::A, true, &mut controls, &mut switches, &mut selectable);
    system.handle_key(Key::W, true, &mut controls, &mut switches, &mut selectable);
    system.handle_key(Key::LShift, true, &mut controls, &mut switches, &mut selectable);
    system.handle_key(Key::Delete, true, &mut controls, &mut switches, &mut selectable);
    assert!(controls.left && controls.forwards && controls.shift && controls.delete);
    assert!(!controls.right && !controls.back);
    system.handle_key(Key::Left, false, &mut controls, &mut switches, &mut selectable);
    system.handle_key(Key::T, false, &mut controls, &mut switches, &mut selectable);
    assert!(!controls.left && !controls.shift);
    system.handle_key(Key::Z, true, &mut controls, &mut switches, &mut selectable);
    system.handle_key(Key::L, true, &mut controls, &mut switches, &mut selectable);
    assert!(controls.save && controls.load);
    system.handle_key(Key::Other, true, &mut controls, &mut switches, &mut selectable);
    assert!(controls.save && controls.load && controls.forwards);
}

#[test]
fn the_camera_key_follows_the_selection() {
    let mut controls: Controls<Point> = Controls::new((0, 0));
    let mut switches = switches();
    let mut selectable = vec![
        Selectable { selected: true, camera_following: false },
        Selectable { selected: false, camera_following: true },
    ];
    let mut system = EventHandlerSystem;
    system.handle_key(Key::C, false, &mut controls, &mut switches, &mut selectable);
    assert_eq!(
        selectable,
        vec![
            Selectable { selected: true, camera_following: true },
            Selectable { selected: false, camera_following: false },
        ]
    );
}

#[test]
fn mouse_buttons_go_to_their_own_state() {
    let mut controls: Controls<Point> = Controls::new((7, 8));
    let mut system = EventHandlerSystem;
    system.handle_button(MouseButton::Middle, true, &mut controls);
    assert_eq!(controls.press_points(), (None, Some((7, 8)), None));
    system.handle_button(MouseButton::Middle, false, &mut controls);
    assert!(controls.middle_clicked());
    system.handle_button(MouseButton::Other, true, &mut controls);
    assert_eq!(controls.press_points(), (None, None, None));
}

#[test]
fn a_button_starts_up() {
    let state: MouseState<Point> = MouseState::default();
    assert!(matches!(state, MouseState::Up));
}

#[test]
fn shift_pressed_reports_its_flag() {
    assert!(space_game::resources::ShiftPressed(true).pressed());
    assert!(!space_game::resources::ShiftPressed(false).pressed());
}

#[test]
fn moving_the_mouse_turns_the_camera_while_right_dragging_else_moves_the_plane_with_shift() {
    let mut controls: Controls<Point> = Controls::new((0, 0));
    let mut system = EventHandlerSystem;
    assert_eq!(system.handle_mouse_move((1, 1), &mut controls), MouseMove::Nothing);
    assert_eq!(controls.mouse(), (1, 1));
    controls.shift = true;
    assert_eq!(system.handle_mouse_move((2, 5), &mut controls), MouseMove::MovePlane);
    controls.handle_right(true);
    controls.update(false, false, true);
    assert_eq!(system.handle_mouse_move((50, 5), &mut controls), MouseMove::TurnCamera);
    assert_eq!(controls.mouse(), (50, 5));
}
