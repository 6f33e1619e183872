use install_menu::selection::{Key, ListOutcome, SelectableList, SelectionState};

#[test]
fn selection_state_needs_a_row() {
    assert!(SelectionState::first(0).is_none());
    assert!(SelectionState::new(0, 0).is_none());
    assert!(SelectionState::new(3, 3).is_none());
    assert!(SelectionState::new(3, 7).is_none());
    let state = SelectionState::new(3, 2).unwrap();
    assert_eq!(state.cursor(), 2);
    assert_eq!(state.item_count(), 3);
    let state = SelectionState::first(5).unwrap();
    assert_eq!(state.cursor(), 0);
    assert_eq!(state.item_count(), 5);
}

#[test]
fn selection_state_moves_by_one_and_stops_at_the_ends() {
    let mut state = SelectionState::first(3).unwrap();
    state.move_up();
    assert_eq!(state.cursor(), 0);
    state.move_down();
    assert_eq!(state.cursor(), 1);
    state.move_down();
    assert_eq!(state.cursor(), 2);
    state.move_down();
    assert_eq!(state.cursor(), 2);
    state.move_up();
    assert_eq!(state.cursor(), 1);
    assert_eq!(state.item_count(), 3);
}

#[test]
fn selection_state_over_one_row_never_moves() {
    let mut state = SelectionState::first(1).unwrap();
    state.move_down();
    assert_eq!(state.cursor(), 0);
    state.move_up();
    assert_eq!(state.cursor(), 0);
}

#[test]
fn cursor_stays_on_a_row_under_every_short_run_of_moves() {
    // every run of up to 10 moves, over lists of 1 to 4 rows
    for count in 1usize..=4 {
        for length in 0u32..=10 {
            for pattern in 0u32..(1 << length) {
                let mut list = SelectableList::new(vec![0u8; count]);
                let mut expected: usize = 0;
                for step in 0..length {
                    if pattern & (1 << step) == 0 {
                        list.move_up();
                        expected = expected.saturating_sub(1);
                    } else {
                        list.move_down();
                        expected = (expected + 1).min(count - 1);
                    }
                    assert!(list.cursor() < count);
                    assert_eq!(list.cursor(), expected);
                }
            }
        }
    }
}

#[test]
fn up_on_the_first_row_and_down_on_the_last_change_nothing() {
    let mut list = SelectableList::new(vec!["a", "b", "c"]);
    list.move_up();
    assert_eq!(list.cursor(), 0);
    assert_eq!(list.current(), Some(&"a"));
    list.move_down();
    list.move_down();
    assert_eq!(list.cursor(), 2);
    list.move_down();
    assert_eq!(list.cursor(), 2);
    assert_eq!(list.current(), Some(&"c"));
}

#[test]
fn empty_list_selects_nothing() {
    let mut list: SelectableList<String> = SelectableList::new(Vec::new());
    assert!(list.is_empty());
    assert_eq!(list.len(), 0);
    assert_eq!(list.cursor(), 0);
    assert!(list.current().is_none());
    assert!(list.selection().is_none());
    list.move_down();
    assert_eq!(list.cursor(), 0);
    list.move_up();
    assert_eq!(list.cursor(), 0);
    assert_eq!(list.handle_key(Key::Enter), ListOutcome::Continue);
    assert_eq!(list.handle_key(Key::Escape), ListOutcome::Dismissed);
    assert!(list.current().is_none());
}

#[test]
fn list_starts_where_asked() {
    let list = SelectableList::with_cursor(vec![10, 20, 30], 2).unwrap();
    assert_eq!(list.cursor(), 2);
    assert_eq!(list.current(), Some(&30));
    assert!(SelectableList::with_cursor(vec![10, 20, 30], 3).is_none());
    assert!(SelectableList::with_cursor(Vec::<u8>::new(), 1).is_none());
    let empty = SelectableList::with_cursor(Vec::<u8>::new(), 0).unwrap();
    assert!(empty.is_empty());
}

#[test]
fn selection_of_a_list_mirrors_its_cursor() {
    let mut list = SelectableList::new(vec!['x', 'y']);
    list.move_down();
    let state = list.selection().unwrap();
    assert_eq!(state.cursor(), 1);
    assert_eq!(state.item_count(), 2);
    assert_eq!(list.items(), &vec!['x', 'y']);
}

#[test]
fn keys_map_to_moves_and_outcomes() {
    let mut list = SelectableList::new(vec!["a", "b", "c"]);
    assert_eq!(list.handle_key(Key::Down), ListOutcome::Continue);
    assert_eq!(list.cursor(), 1);
    assert_eq!(list.handle_key(Key::Other), ListOutcome::Continue);
    assert_eq!(list.cursor(), 1);
    assert_eq!(list.handle_key(Key::Enter), ListOutcome::Chosen(1));
    assert_eq!(list.cursor(), 1);
    assert_eq!(list.handle_key(Key::Up), ListOutcome::Continue);
    assert_eq!(list.cursor(), 0);
    assert_eq!(list.handle_key(Key::Escape), ListOutcome::Dismissed);
    assert_eq!(list.cursor(), 0);
    assert_eq!(list.len(), 3);
}
