use termprompt::events::KeyEvent;
use termprompt::navigator::{NavStep, Navigator};

fn bounds_hold(nav: &Navigator) -> bool {
    nav.cursor() < nav.rows() && nav.offset() <= nav.len() - nav.rows() && nav.rows() >= 1
        && nav.rows() <= nav.len()
}

#[test]
fn window_is_the_smaller_of_page_size_and_length() {
    let nav = Navigator::new(10, 5);
    assert_eq!(nav.rows(), 5);
    let nav = Navigator::new(3, 5);
    assert_eq!(nav.rows(), 3);
    let nav = Navigator::new(5, 5);
    assert_eq!(nav.rows(), 5);
}

#[test]
fn down_moves_within_the_page_then_scrolls() {
    let mut nav = Navigator::new(10, 5);
    for expected in 1..5 {
        nav.key_down();
        assert_eq!(nav.cursor(), expected);
        assert_eq!(nav.offset(), 0);
    }
    // The cursor sits on the last row; the window scrolls from here on.
    nav.key_down();
    assert_eq!(nav.cursor(), 4);
    assert_eq!(nav.offset(), 1);
}

#[test]
fn up_mirrors_down() {
    let mut nav = Navigator::new(10, 5);
    for _ in 0..6 {
        nav.key_down();
    }
    assert_eq!((nav.cursor(), nav.offset()), (4, 2));
    for _ in 0..4 {
        nav.key_up();
    }
    assert_eq!((nav.cursor(), nav.offset()), (0, 2));
    nav.key_up();
    assert_eq!((nav.cursor(), nav.offset()), (0, 1));
}

#[test]
fn no_wraparound_at_either_end() {
    let mut nav = Navigator::new(3, 2);
    nav.key_up();
    assert_eq!((nav.cursor(), nav.offset()), (0, 0));
    for _ in 0..10 {
        nav.key_down();
    }
    assert_eq!((nav.cursor(), nav.offset()), (1, 1));
    assert_eq!(nav.selected_index(), 2);
}

#[test]
fn bounds_hold_after_arbitrary_transitions() {
    let mut nav = Navigator::new(7, 3);
    assert!(bounds_hold(&nav));
    let keys = [
        KeyEvent::Down,
        KeyEvent::Down,
        KeyEvent::Up,
        KeyEvent::Down,
        KeyEvent::Down,
        KeyEvent::Down,
        KeyEvent::Down,
        KeyEvent::Down,
        KeyEvent::Up,
        KeyEvent::Down,
    ];
    for key in keys {
        nav.handle_key(key);
        assert!(bounds_hold(&nav));
    }
}

#[test]
fn down_four_times_then_enter_commits_the_fifth_choice() {
    // Ten choices, page size five.
    let mut nav = Navigator::new(10, 5);
    for _ in 0..4 {
        assert_eq!(nav.handle_key(KeyEvent::Down), NavStep::Continue);
    }
    assert_eq!(nav.handle_key(KeyEvent::Enter), NavStep::Commit(4));
}

#[test]
fn down_five_times_scrolls_and_commits_the_sixth_choice() {
    // One past the visible window: the offset scrolls to one.
    let mut nav = Navigator::new(10, 5);
    for _ in 0..5 {
        assert_eq!(nav.handle_key(KeyEvent::Down), NavStep::Continue);
    }
    assert_eq!(nav.offset(), 1);
    assert_eq!(nav.handle_key(KeyEvent::Enter), NavStep::Commit(5));
}

#[test]
fn ctrl_c_aborts_and_other_keys_do_nothing() {
    let mut nav = Navigator::new(4, 2);
    assert_eq!(nav.handle_key(KeyEvent::Char('x')), NavStep::Continue);
    assert_eq!(nav.handle_key(KeyEvent::Esc), NavStep::Continue);
    assert_eq!(nav.handle_key(KeyEvent::Ctrl('d')), NavStep::Continue);
    assert_eq!((nav.cursor(), nav.offset()), (0, 0));
    assert_eq!(nav.handle_key(KeyEvent::Ctrl('c')), NavStep::Abort);
}
