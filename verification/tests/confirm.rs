use termprompt::confirm::{Confirm, ConfirmStep};
use termprompt::error::Error;
use termprompt::events::KeyEvent;
use termprompt::input::Input;
use termprompt::theme::Theme;

#[test]
fn enter_commits_the_default() {
    let c = Confirm::new("sure?").build();
    assert_eq!(c.handle_key(KeyEvent::Enter), ConfirmStep::Commit(true));
    let c = Confirm::new("sure?").default(false).build();
    assert_eq!(c.handle_key(KeyEvent::Enter), ConfirmStep::Commit(false));
}

#[test]
fn y_and_n_commit_directly() {
    let c = Confirm::new("sure?").default(false).build();
    assert_eq!(c.handle_key(KeyEvent::Char('y')), ConfirmStep::Commit(true));
    assert_eq!(c.handle_key(KeyEvent::Char('n')), ConfirmStep::Commit(false));
}

#[test]
fn other_keys_keep_the_prompt_open() {
    let c = Confirm::new("sure?").build();
    assert_eq!(c.handle_key(KeyEvent::Char('x')), ConfirmStep::Continue);
    assert_eq!(c.handle_key(KeyEvent::Up), ConfirmStep::Continue);
    assert_eq!(c.handle_key(KeyEvent::Ctrl('c')), ConfirmStep::Abort);
}

#[test]
fn hint_capitalizes_the_default() {
    assert_eq!(Confirm::new("q").build().hint(), "Yn");
    assert_eq!(Confirm::new("q").default(false).build().hint(), "yN");
}

#[test]
fn answers_render_as_words() {
    let c = Confirm::new("q").build();
    assert_eq!(c.answer_text(true), "yes");
    assert_eq!(c.answer_text(false), "no");
}

#[test]
fn error_messages_describe_each_kind() {
    assert_eq!(Error::NoMoreInput.message(), "No more input");
    assert_eq!(Error::UserAborted.message(), "User aborted");
    assert_eq!(Error::InvalidChoice(7).message(), "Invalid choice at inedx: 7");
    assert_eq!(Error::Format.message(), "Formatting error");
    let io = Error::IoError(std::io::Error::new(std::io::ErrorKind::Other, "x"));
    assert_eq!(io.message(), "Io error");
}

#[test]
fn prompt_without_error_parks_the_cursor_after_the_question() {
    let input = Input::new("Hi").build();
    let theme = Theme::new();
    let s = input.render_prompt(&theme, None).unwrap();
    // Visible width of "? Hi " is five: up one, right five.
    assert!(s.ends_with("\n\x1b[1A\x1b[5C"));
}

#[test]
fn prompt_with_error_shows_it_below_and_returns_up() {
    let input = Input::new("Hi").build();
    let theme = Theme::new();
    let s = input.render_prompt(&theme, Some("bad")).unwrap();
    assert!(s.contains("\r\n"));
    assert!(s.contains("bad"));
    // Error width three, question width five: right by 5 - 3 - 2 = 0.
    assert!(s.ends_with("\x1b[1A\x1b[0C"));
    let s = input.render_prompt(&theme, Some("a longer complaint")).unwrap();
    // Error width 18: left by 18 - 5 + 2 = 15.
    assert!(s.ends_with("\x1b[1A\x1b[15D"));
}
