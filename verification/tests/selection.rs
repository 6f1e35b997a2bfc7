use quicktick_tty::helper::stateful_list::{ListState, StatefulList};

#[test]
fn next_wraps_to_first() {
    let mut list = StatefulList::with_items(vec![10u32, 20, 30]);
    assert_eq!(list.selected(), None);
    list.next();
    assert_eq!(list.selected(), Some(10));
    list.next();
    list.next();
    assert_eq!(list.selected(), Some(30));
    list.next();
    assert_eq!(list.selected(), Some(10));
}

#[test]
fn previous_wraps_to_last() {
    let mut list = StatefulList::with_items(vec!['a', 'b', 'c']);
    list.previous();
    assert_eq!(list.selected_index(), Some(0));
    list.previous();
    assert_eq!(list.selected_index(), Some(2));
    assert_eq!(list.selected(), Some('c'));
    list.previous();
    assert_eq!(list.selected_index(), Some(1));
}

#[test]
fn steps_on_an_empty_list_select_nothing() {
    let mut list: StatefulList<u8> = StatefulList::with_items(Vec::new());
    list.next();
    assert_eq!(list.selected_index(), None);
    assert_eq!(list.selected(), None);
    list.previous();
    assert_eq!(list.selected_index(), None);
    list.next();
    list.next();
    assert_eq!(list.selected_index(), None);
}

#[test]
fn as_many_steps_as_items_return_to_the_start() {
    for len in 1usize..8 {
        for start in 0..len {
            let mut list = StatefulList::with_items((0..len).collect::<Vec<usize>>());
            for _ in 0..=start {
                list.next();
            }
            assert_eq!(list.selected_index(), Some(start));
            for _ in 0..len {
                list.next();
            }
            assert_eq!(list.selected_index(), Some(start));
        }
    }
}

#[test]
fn cursor_stays_in_range_under_mixed_steps() {
    let mut list = StatefulList::with_items(vec![1, 2, 3, 4, 5]);
    let steps = [true, true, false, false, false, true, false, false, false, false, true, true];
    for forward in steps {
        if forward {
            list.next();
        } else {
            list.previous();
        }
        let at = list.selected_index().unwrap();
        assert!(at < 5);
    }
    assert_eq!(list.selected_index(), Some(2));
}

#[test]
fn single_item_list_stays_on_its_item() {
    let mut list = StatefulList::with_items(vec!["only"]);
    list.next();
    assert_eq!(list.selected_index(), Some(0));
    list.next();
    assert_eq!(list.selected_index(), Some(0));
    list.previous();
    assert_eq!(list.selected_index(), Some(0));
}

#[test]
fn replace_items_with_nothing_clears_the_cursor() {
    let mut list = StatefulList::with_items(vec![1, 2, 3]);
    list.next();
    list.next();
    assert_eq!(list.selected_index(), Some(1));
    list.replace_items(Vec::new());
    assert_eq!(list.selected_index(), None);
    assert_eq!(list.len(), 0);
}

#[test]
fn replace_items_on_an_empty_list_selects_nothing() {
    let mut list: StatefulList<i32> = StatefulList::with_items(Vec::new());
    list.replace_items(vec![7, 8]);
    assert_eq!(list.selected_index(), None);
    assert_eq!(list.items(), &vec![7, 8]);
    list.next();
    assert_eq!(list.selected(), Some(7));
}

#[test]
fn replace_items_keeps_a_cursor_that_still_fits() {
    let mut list = StatefulList::with_items(vec![1, 2, 3, 4]);
    list.next();
    list.next();
    list.replace_items(vec![9, 8, 7]);
    assert_eq!(list.selected_index(), Some(1));
    assert_eq!(list.selected(), Some(8));
}

#[test]
fn replace_items_clears_a_cursor_behind_the_end() {
    let mut list = StatefulList::with_items(vec![1, 2, 3, 4]);
    list.previous();
    list.previous();
    assert_eq!(list.selected_index(), Some(3));
    list.replace_items(vec![9, 8, 7]);
    assert_eq!(list.selected_index(), None);
    list.replace_items(vec![9, 8, 7, 6]);
    assert_eq!(list.selected_index(), None);
}

#[test]
fn unselect_clears_the_cursor() {
    let mut list = StatefulList::with_items(vec![1, 2]);
    list.next();
    list.unselect();
    assert_eq!(list.selected_index(), None);
    assert_eq!(list.selected(), None);
    assert_eq!(list.items(), &vec![1, 2]);
}

#[test]
fn push_appends_and_keeps_the_cursor() {
    let mut list = StatefulList::with_items(vec![1, 2]);
    list.next();
    list.next();
    list.push(3);
    assert_eq!(list.items(), &vec![1, 2, 3]);
    assert_eq!(list.selected_index(), Some(1));
    list.next();
    assert_eq!(list.selected(), Some(3));
}

#[test]
fn with_items_starts_unselected() {
    let list = StatefulList::with_items(vec![String::from("a")]);
    assert_eq!(list.selected_index(), None);
    assert_eq!(list.state().selected(), None);
    assert_eq!(list.len(), 1);
}

#[test]
fn list_state_remembers_what_was_selected() {
    let mut state = ListState::new();
    assert_eq!(state.selected(), None);
    state.select(Some(4));
    assert_eq!(state.selected(), Some(4));
    state.select(None);
    assert_eq!(state.selected(), None);
}
