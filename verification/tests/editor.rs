use termprompt::canvas::Canvas;
use termprompt::editor::{EditStep, Input2, LineEdit};
use termprompt::events::KeyEvent;
use termprompt::util::match_char;

#[test]
fn insert_then_backspace_restores_the_buffer() {
    let mut ed = LineEdit::new();
    for c in "hello".chars() {
        ed.insert(c);
    }
    ed.caret_left();
    ed.caret_left();
    let before = ed.text();
    let caret = ed.caret();
    // Insert at the caret, then delete at the same position.
    ed.insert('X');
    ed.backspace();
    assert_eq!(ed.text(), before);
    assert_eq!(ed.caret(), caret);
}

#[test]
fn caret_stays_within_the_buffer() {
    let mut ed = LineEdit::new();
    ed.caret_left();
    assert_eq!(ed.caret(), 0);
    ed.insert('a');
    ed.insert('b');
    ed.caret_right();
    assert_eq!(ed.caret(), 2);
    ed.caret_left();
    ed.caret_left();
    ed.caret_left();
    assert_eq!(ed.caret(), 0);
}

#[test]
fn backspace_at_the_start_is_a_no_op() {
    let mut ed = LineEdit::new();
    ed.insert('a');
    ed.caret_left();
    ed.backspace();
    assert_eq!(ed.text(), "a");
}

#[test]
fn mid_buffer_editing_uses_the_caret() {
    let mut ed = LineEdit::new();
    for c in "ace".chars() {
        ed.insert(c);
    }
    ed.caret_left();
    ed.insert('d');
    ed.caret_left();
    ed.caret_left();
    ed.insert('b');
    assert_eq!(ed.text(), "abcde");
}

#[test]
fn typed_characters_echo_and_the_cursor_tracks_the_caret() {
    let input = Input2::new(true, None);
    let mut ed = LineEdit::new();
    let mut canvas = Canvas::new((1, 1));
    canvas.print("? ").unwrap();
    let start = canvas.col();
    for c in "hi".chars() {
        let step = input.handle_key(&mut ed, &mut canvas, start, KeyEvent::Char(c)).unwrap();
        assert_eq!(step, EditStep::Edited);
        assert_eq!(canvas.col() as usize, start as usize + ed.caret());
    }
    assert_eq!(ed.text(), "hi");
    let step = input.handle_key(&mut ed, &mut canvas, start, KeyEvent::Left).unwrap();
    assert_eq!(step, EditStep::Moved);
    assert_eq!(canvas.col() as usize, start as usize + 1);
    let step = input.handle_key(&mut ed, &mut canvas, start, KeyEvent::Backspace).unwrap();
    assert_eq!(step, EditStep::Edited);
    assert_eq!(ed.text(), "i");
    assert_eq!(canvas.col() as usize, start as usize);
}

#[test]
fn control_characters_are_never_inserted() {
    let input = Input2::new(true, None);
    let mut ed = LineEdit::new();
    let mut canvas = Canvas::new((1, 1));
    for c in ['\x01', '\x07', '\x1b', '\x7f', '\u{90}'] {
        let step = input.handle_key(&mut ed, &mut canvas, 0, KeyEvent::Char(c)).unwrap();
        assert_eq!(step, EditStep::Ignored);
    }
    assert_eq!(ed.text(), "");
}

#[test]
fn masked_input_renders_the_token_not_the_text() {
    let input = Input2::new(false, Some("*"));
    let mut ed = LineEdit::new();
    let mut canvas = Canvas::new((1, 1));
    canvas.flush();
    input.handle_key(&mut ed, &mut canvas, 0, KeyEvent::Char('s')).unwrap();
    input.handle_key(&mut ed, &mut canvas, 0, KeyEvent::Char('t')).unwrap();
    let out = canvas.flush();
    assert!(out.contains("**"));
    assert!(!out.contains("st"));
    assert_eq!(ed.text(), "st");
}

#[test]
fn without_echo_nothing_is_painted() {
    let input = Input2::new(false, None);
    let mut ed = LineEdit::new();
    let mut canvas = Canvas::new((1, 1));
    canvas.flush();
    input.handle_key(&mut ed, &mut canvas, 0, KeyEvent::Char('s')).unwrap();
    assert_eq!(canvas.flush(), "");
    assert_eq!(ed.text(), "s");
}

#[test]
fn multibyte_characters_count_as_one_column() {
    let input = Input2::new(true, None);
    let mut ed = LineEdit::new();
    let mut canvas = Canvas::new((1, 1));
    input.handle_key(&mut ed, &mut canvas, 0, KeyEvent::Char('\u{e9}')).unwrap();
    assert_eq!(ed.text(), "\u{e9}");
    // One visible character, although it encodes as two bytes.
    assert_eq!(canvas.col(), 1);
}

#[test]
fn enter_commits_and_ctrl_c_aborts() {
    let input = Input2::new(true, None);
    let mut ed = LineEdit::new();
    let mut canvas = Canvas::new((1, 1));
    let step = input.handle_key(&mut ed, &mut canvas, 0, KeyEvent::Enter).unwrap();
    assert_eq!(step, EditStep::Committed);
    let step = input.handle_key(&mut ed, &mut canvas, 0, KeyEvent::Ctrl('c')).unwrap();
    assert_eq!(step, EditStep::Aborted);
}

#[test]
fn match_char_flags_the_discarded_band() {
    assert!(match_char(&'\x01'));
    assert!(match_char(&'\x08'));
    assert!(!match_char(&'\x09'));
    assert!(!match_char(&'a'));
    assert!(match_char(&'\u{10FFFE}'));
    assert!(match_char(&'\u{10FFFF}'));
}
