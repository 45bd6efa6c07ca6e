use space_game::list::List;

#[test]
fn a_new_list_selects_its_first_entry() {
    let list = List::new(vec!["a", "b", "c"]);
    assert_eq!(list.index(), 0);
    assert_eq!(*list.get(), "a");
    assert_eq!(list.iter(), &["a", "b", "c"]);
}

#[test]
fn stepping_down_wraps_from_the_last_entry_to_the_first() {
    let mut list = List::new(vec![1, 2, 3]);
    list.rotate_down();
    assert_eq!(list.index(), 1);
    list.rotate_down();
    assert_eq!(list.index(), 2);
    list.rotate_down();
    assert_eq!(list.index(), 0);
}

#[test]
fn stepping_up_wraps_from_the_first_entry_to_the_last() {
    let mut list = List::new(vec![1, 2, 3]);
    list.rotate_up();
    assert_eq!(list.index(), 2);
    assert_eq!(*list.get(), 3);
    list.rotate_up();
    assert_eq!(list.index(), 1);
}

#[test]
fn a_step_down_undoes_a_step_up() {
    for start in 0..4 {
        let mut list = List::new(vec![0, 1, 2, 3]);
        list.set_index(start);
        list.rotate_up();
        list.rotate_down();
        assert_eq!(list.index(), start);
        list.rotate_down();
        list.rotate_up();
        assert_eq!(list.index(), start);
    }
}

#[test]
fn stepping_down_once_per_entry_comes_full_circle() {
    let mut list = List::new(vec!['x', 'y', 'z', 'w', 'v']);
    list.set_index(3);
    for _ in 0..5 {
        list.rotate_down();
    }
    assert_eq!(list.index(), 3);
}

#[test]
fn a_list_of_one_stays_on_its_entry() {
    let mut list = List::new(vec![9]);
    list.rotate_down();
    assert_eq!(list.index(), 0);
    list.rotate_up();
    assert_eq!(list.index(), 0);
}

#[test]
fn new_entries_keep_the_selection_where_they_reach_it() {
    let mut list = List::new(vec![1, 2, 3, 4]);
    list.set_index(3);
    list.set_entries(vec![5, 6]);
    assert_eq!(list.index(), 1);
    assert_eq!(*list.get(), 6);
    list.set_index(0);
    list.set_entries(vec![7, 8, 9]);
    assert_eq!(list.index(), 0);
}

#[test]
fn clearing_the_entries_resets_the_selection() {
    let mut list = List::new(vec![1, 2, 3]);
    list.set_index(2);
    list.clear_entries();
    assert_eq!(list.index(), 0);
    assert!(list.iter().is_empty());
    list.push_entry(4);
    assert_eq!(*list.get(), 4);
}

#[test]
fn inserting_keeps_the_selected_position() {
    let mut list = List::new(vec![10, 20]);
    list.set_index(1);
    list.insert_entry(0, 5);
    assert_eq!(list.iter(), &[5, 10, 20]);
    assert_eq!(list.index(), 1);
    assert_eq!(*list.get(), 10);
}

#[test]
fn entries_change_in_place() {
    let mut list = List::new(vec![1, 2, 3]);
    list.rotate_down();
    *list.get_mut() = 20;
    *list.index_mut(2) = 30;
    assert_eq!(*list.index_at(0), 1);
    assert_eq!(list.iter(), &[1, 20, 30]);
}
