use termprompt::canvas::Canvas;

#[test]
fn new_canvas_starts_at_anchor() {
    let mut c = Canvas::new((1, 1));
    assert_eq!(c.col(), 0);
    assert_eq!(c.lines_rendered(), 0);
    assert_eq!(c.cursor_row(), 1);
    assert_eq!(c.pos(), (1, 1));
    assert_eq!(c.flush(), "\x1b[1;1H");
}

#[test]
fn print_advances_by_visible_width_not_raw_length() {
    let mut c = Canvas::new((1, 1));
    let styled = "\x1b[31mab\x1b[m";
    assert!(styled.len() > 2);
    c.print(styled).unwrap();
    // Two visible characters; the styling sequences count for nothing.
    assert_eq!(c.col(), 2);
}

#[test]
fn print_plain_text_advances_by_its_length() {
    let mut c = Canvas::new((1, 1));
    c.print("hello").unwrap();
    assert_eq!(c.col(), 5);
    c.print("!!").unwrap();
    assert_eq!(c.col(), 7);
}

#[test]
fn print_emits_erase_then_text() {
    let mut c = Canvas::new((2, 3));
    c.flush();
    c.print("hi").unwrap();
    assert_eq!(c.flush(), "\x1b[Jhi");
}

#[test]
fn println_finishes_the_row() {
    let mut c = Canvas::new((1, 1));
    c.flush();
    c.println("abc").unwrap();
    assert_eq!(c.col(), 0);
    assert_eq!(c.lines_rendered(), 1);
    assert_eq!(c.cursor_row(), 2);
    assert_eq!(c.flush(), "\x1b[Jabc\x1b[3D\n");
}

#[test]
fn println_measures_visible_width_for_the_move_back() {
    let mut c = Canvas::new((1, 1));
    c.flush();
    c.println("\x1b[32mok\x1b[m").unwrap();
    // The cursor moves back over two visible characters, not the raw bytes.
    assert_eq!(c.flush(), "\x1b[J\x1b[32mok\x1b[m\x1b[2D\n");
}

#[test]
fn print_lines_counts_every_line() {
    let mut c = Canvas::new((1, 1));
    c.flush();
    let lines = vec![String::from("aa"), String::from("b")];
    c.print_lines(&lines).unwrap();
    assert_eq!(c.lines_rendered(), 2);
    assert_eq!(c.cursor_row(), 3);
    assert_eq!(c.col(), 0);
    assert_eq!(c.flush(), "\x1b[Jaa\x1b[2D\n\x1b[Jb\x1b[1D\n");
}

#[test]
fn print_lines_first_line_moves_back_over_the_starting_column() {
    let mut c = Canvas::new((1, 1));
    c.print("> ").unwrap();
    c.flush();
    let lines = vec![String::from("xy")];
    c.print_lines(&lines).unwrap();
    // Visible width two plus the starting column two.
    assert_eq!(c.flush(), "\x1b[Jxy\x1b[4D\n");
}

#[test]
fn move_left_clamps_at_column_zero() {
    let mut c = Canvas::new((1, 1));
    c.print("abcd").unwrap();
    c.move_left(3);
    assert_eq!(c.col(), 1);
    // Further than the column: a no-op, never above column zero.
    c.move_left(2);
    assert_eq!(c.col(), 1);
    c.move_left(1);
    assert_eq!(c.col(), 0);
}

#[test]
fn move_right_advances() {
    let mut c = Canvas::new((1, 1));
    c.flush();
    c.move_right(4).unwrap();
    assert_eq!(c.col(), 4);
    assert_eq!(c.flush(), "\x1b[4C");
}

#[test]
fn move_up_never_leaves_the_region() {
    let mut c = Canvas::new((1, 1));
    c.println("a").unwrap();
    c.println("b").unwrap();
    assert_eq!(c.cursor_row(), 3);
    c.move_up(1);
    assert_eq!(c.cursor_row(), 2);
    // Moving above the anchor row is a no-op.
    c.move_up(5);
    assert_eq!(c.cursor_row(), 2);
    c.move_up(1);
    assert_eq!(c.cursor_row(), 1);
    c.move_up(1);
    assert_eq!(c.cursor_row(), 1);
}

#[test]
fn clear_restores_the_fresh_state() {
    let fresh = Canvas::new((5, 7));
    let mut c = Canvas::new((5, 7));
    c.print("question").unwrap();
    c.println(" more").unwrap();
    c.println("rows").unwrap();
    c.clear();
    // The cursor model after clear is the just-constructed one.
    assert_eq!(c.col(), fresh.col());
    assert_eq!(c.lines_rendered(), fresh.lines_rendered());
    assert_eq!(c.cursor_row(), fresh.cursor_row());
    assert_eq!(c.pos(), fresh.pos());
}

#[test]
fn clear_erases_each_rendered_line_bottom_up() {
    let mut c = Canvas::new((1, 1));
    c.println("a").unwrap();
    c.println("b").unwrap();
    c.flush();
    c.clear();
    assert_eq!(c.flush(), "\x1b[3;1H\x1b[2K\x1b[1A\x1b[2K\x1b[1A");
}

#[test]
fn clear_from_repositions_and_erases() {
    let mut c = Canvas::new((3, 4));
    c.println("title").unwrap();
    c.print("ab").unwrap();
    c.flush();
    c.clear_from(1).unwrap();
    assert_eq!(c.col(), 1);
    // Row: anchor row 4 plus cursor row 2 minus one.
    assert_eq!(c.flush(), "\x1b[5;4H\x1b[J");
}

#[test]
fn a_line_too_wide_for_the_cursor_model_is_refused_unwritten() {
    let mut c = Canvas::new((1, 1));
    c.print("ab").unwrap();
    c.flush();
    let huge = "x".repeat(70000);
    assert!(matches!(c.print(&huge), Err(termprompt::error::Error::Format)));
    // The canvas is untouched: nothing was emitted and the column stands.
    assert_eq!(c.col(), 2);
    assert_eq!(c.flush(), "");
    assert!(matches!(c.println(&huge), Err(termprompt::error::Error::Format)));
    assert_eq!(c.lines_rendered(), 0);
}

#[test]
fn flush_drains_the_buffer() {
    let mut c = Canvas::new((1, 1));
    c.print("x").unwrap();
    let first = c.flush();
    assert!(!first.is_empty());
    assert_eq!(c.flush(), "");
}
