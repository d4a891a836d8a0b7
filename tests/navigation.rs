use file_navigator::input::{command_for, start_path, Command, Key, UsageError};
use file_navigator::navigation::{find_path, Entry, NavigationState};
use file_navigator::viewport::{scroll_after_down, scroll_after_up, scroll_from_scratch};

fn entry(dir: &str, name: &str, is_dir: bool) -> Entry {
    Entry { name: name.to_string(), is_dir, path: format!("{}/{}", dir, name) }
}

fn files(dir: &str, n: usize) -> Vec<Entry> {
    (0..n).map(|i| entry(dir, &format!("f{}", i), false)).collect()
}

fn assert_invariants(st: &NavigationState) {
    let n = st.listing().len();
    if n == 0 {
        assert_eq!(st.selection(), 0);
        assert_eq!(st.scroll(), 0);
    } else {
        assert!(st.scroll() <= st.selection());
        assert!(st.selection() < n);
    }
    if st.viewport_height() > 0 {
        assert!(st.selection() <= st.scroll() + st.viewport_height() - 1);
    }
}

#[test]
fn moving_down_scrolls_with_five_rows_of_lookahead() {
    let mut st = NavigationState::new("/d".to_string(), files("/d", 20), 10);
    for sel in 1..20usize {
        st.move_down();
        assert_eq!(st.selection(), sel);
        let want = if sel <= 5 { 0 } else if sel - 5 < 10 { sel - 5 } else { 10 };
        assert_eq!(st.scroll(), want, "selection {}", sel);
    }
    st.move_down();
    assert_eq!(st.selection(), 19);
    assert_eq!(st.scroll(), 10);
}

#[test]
fn moving_up_scrolls_back_with_five_rows_of_lookbehind() {
    let mut st = NavigationState::from_parts("/d".to_string(), files("/d", 20), 15, 10, 10).unwrap();
    st.move_up();
    assert_eq!((st.selection(), st.scroll()), (14, 9));
    for _ in 0..9 {
        st.move_up();
    }
    assert_eq!((st.selection(), st.scroll()), (5, 0));
    st.move_up();
    assert_eq!((st.selection(), st.scroll()), (4, 0));
}

#[test]
fn shrinking_the_viewport_keeps_the_selection_visible() {
    let mut st = NavigationState::from_parts("/d".to_string(), files("/d", 20), 8, 0, 10).unwrap();
    st.resize(3);
    assert_eq!(st.viewport_height(), 3);
    assert_eq!(st.selection(), 8);
    assert!(st.scroll() <= 8 && 8 <= st.scroll() + 2);
    assert_eq!(st.scroll(), 8);
}

#[test]
fn growing_the_viewport_scrolls_back() {
    let mut st = NavigationState::from_parts("/d".to_string(), files("/d", 20), 8, 8, 3).unwrap();
    st.resize(10);
    assert_eq!(st.scroll(), 3);
    st.resize(30);
    assert_eq!(st.scroll(), 0);
}

#[test]
fn moves_at_the_ends_change_nothing() {
    let mut st = NavigationState::new("/d".to_string(), files("/d", 3), 10);
    st.move_up();
    assert_eq!((st.selection(), st.scroll()), (0, 0));
    st.move_down();
    st.move_down();
    st.move_down();
    assert_eq!((st.selection(), st.scroll()), (2, 0));
}

#[test]
fn empty_listing_is_inert() {
    let mut st = NavigationState::new("/empty".to_string(), Vec::new(), 10);
    st.move_down();
    st.move_up();
    assert_eq!((st.selection(), st.scroll()), (0, 0));
    assert_eq!(st.selected_directory(), None);
    let frame = st.frame();
    assert_eq!(frame.lines, vec!["   ".to_string(), "   ".to_string()]);
    assert_eq!(frame.cursor_line, 1);
}

#[test]
fn enter_then_leave_returns_to_the_directory() {
    let mut listing = files("/d", 12);
    listing.push(entry("/d", "sub", true));
    let outer_again = {
        let mut l = files("/d", 12);
        l.push(entry("/d", "sub", true));
        l
    };
    let mut st = NavigationState::new("/d".to_string(), listing, 5);
    for _ in 0..12 {
        st.move_down();
    }
    assert_eq!(st.selection(), 12);
    let target = st.selected_directory().unwrap();
    assert_eq!(target, "/d/sub");
    st.enter(target.clone(), files("/d/sub", 2));
    assert_eq!(st.current_path(), "/d/sub");
    assert_eq!((st.selection(), st.scroll()), (0, 0));
    st.leave("/d".to_string(), outer_again);
    assert_eq!(st.current_path(), "/d");
    assert_eq!(st.selection(), 12);
    assert_eq!(st.listing()[12].path, "/d/sub");
    assert!(st.scroll() <= 12 && 12 < st.scroll() + 5);
}

#[test]
fn enter_on_a_file_does_nothing() {
    let mut st = NavigationState::new("/d".to_string(), files("/d", 4), 10);
    st.move_down();
    assert_eq!(st.selected_directory(), None);
    st.enter("/d/f1".to_string(), files("/d/f1", 3));
    assert_eq!(st.current_path(), "/d");
    assert_eq!(st.listing().len(), 4);
    assert_eq!(st.selection(), 1);
}

#[test]
fn leave_without_the_old_entry_selects_the_first() {
    let mut st = NavigationState::new("/d/gone".to_string(), files("/d/gone", 2), 10);
    st.move_down();
    st.leave("/d".to_string(), files("/d", 5));
    assert_eq!(st.current_path(), "/d");
    assert_eq!((st.selection(), st.scroll()), (0, 0));
}

#[test]
fn leave_within_the_first_window_keeps_scroll_at_top() {
    let mut outer = files("/d", 3);
    outer.push(entry("/d", "sub", true));
    let mut st = NavigationState::new("/d/sub".to_string(), Vec::new(), 10);
    st.leave("/d".to_string(), outer);
    assert_eq!((st.selection(), st.scroll()), (3, 0));
}

#[test]
fn find_path_returns_the_first_match() {
    let mut l = files("/d", 3);
    l.push(entry("/d", "f1", true));
    assert_eq!(find_path(&l, &"/d/f1".to_string()), Some(1));
    assert_eq!(find_path(&l, &"/d/none".to_string()), None);
    assert_eq!(find_path(&Vec::new(), &"/d".to_string()), None);
}

#[test]
fn invariants_hold_over_a_walk() {
    let mut st = NavigationState::new("/d".to_string(), files("/d", 30), 7);
    let heights = [7usize, 3, 1, 0, 12, 40, 5];
    for step in 0..200usize {
        match step % 7 {
            0 | 1 | 2 => st.move_down(),
            3 | 4 => st.move_up(),
            5 => st.resize(heights[(step / 7) % heights.len()]),
            _ => st.move_down(),
        }
        assert_invariants(&st);
    }
}

#[test]
fn tiny_viewport_keeps_selection_visible() {
    let mut st = NavigationState::new("/d".to_string(), files("/d", 10), 3);
    for _ in 0..9 {
        st.move_down();
        assert_invariants(&st);
    }
    assert_eq!((st.selection(), st.scroll()), (9, 7));
    for _ in 0..9 {
        st.move_up();
        assert_invariants(&st);
    }
    assert_eq!((st.selection(), st.scroll()), (0, 0));
}

#[test]
fn from_parts_rejects_broken_positions() {
    assert!(NavigationState::from_parts("/d".to_string(), files("/d", 5), 5, 0, 10).is_none());
    assert!(NavigationState::from_parts("/d".to_string(), files("/d", 5), 1, 2, 10).is_none());
    assert!(NavigationState::from_parts("/d".to_string(), files("/d", 20), 12, 0, 10).is_none());
    assert!(NavigationState::from_parts("/d".to_string(), Vec::new(), 1, 0, 10).is_none());
    assert!(NavigationState::from_parts("/d".to_string(), files("/d", 20), 12, 3, 10).is_some());
}

#[test]
fn window_and_frame_show_the_visible_slice() {
    let mut listing = files("/d", 6);
    listing[2] = entry("/d", "docs", true);
    let st = NavigationState::from_parts("/d".to_string(), listing, 3, 1, 3).unwrap();
    let w = st.window();
    assert_eq!((w.start, w.end, w.has_more_above, w.has_more_below), (1, 4, true, true));
    let frame = st.frame();
    assert_eq!(frame.lines, vec!["...", "f1", "docs/", "f3", "..."]);
    assert_eq!(frame.cursor_line, 3);
}

#[test]
fn frame_of_a_short_listing_has_blank_markers() {
    let st = NavigationState::new("/d".to_string(), files("/d", 2), 10);
    let w = st.window();
    assert_eq!((w.start, w.end, w.has_more_above, w.has_more_below), (0, 2, false, false));
    assert_eq!(st.frame().lines, vec!["   ", "f0", "f1", "   "]);
}

#[test]
fn scroll_policy_values() {
    assert_eq!(scroll_after_down(6, 0, 10, 20), 1);
    assert_eq!(scroll_after_down(5, 0, 10, 20), 0);
    assert_eq!(scroll_after_down(16, 10, 10, 20), 10);
    assert_eq!(scroll_after_up(14, 10, 10), 9);
    assert_eq!(scroll_after_up(4, 5, 10), 4);
    assert_eq!(scroll_from_scratch(9, 10, 20), 4);
    assert_eq!(scroll_from_scratch(0, 10, 0), 0);
    assert_eq!(scroll_from_scratch(19, 10, 20), 10);
}

#[test]
fn keys_map_to_commands() {
    assert_eq!(command_for(Key::Char('q')), Command::Quit);
    assert_eq!(command_for(Key::Esc), Command::Quit);
    assert_eq!(command_for(Key::Up), Command::MoveUp);
    assert_eq!(command_for(Key::Down), Command::MoveDown);
    assert_eq!(command_for(Key::Char('\n')), Command::Enter);
    assert_eq!(command_for(Key::Right), Command::Enter);
    assert_eq!(command_for(Key::Backspace), Command::Leave);
    assert_eq!(command_for(Key::Left), Command::Leave);
    assert_eq!(command_for(Key::Char('x')), Command::Refresh);
    assert_eq!(command_for(Key::Other), Command::Refresh);
}

#[test]
fn start_path_takes_at_most_one_argument() {
    let prog = "nav".to_string();
    assert_eq!(start_path(&vec![prog.clone()]), Ok(".".to_string()));
    assert_eq!(start_path(&vec![]), Ok(".".to_string()));
    assert_eq!(start_path(&vec![prog.clone(), "/tmp".to_string()]), Ok("/tmp".to_string()));
    assert_eq!(
        start_path(&vec![prog, "a".to_string(), "b".to_string()]),
        Err(UsageError)
    );
}
