use termprompt::choice::Choice;
use termprompt::events::KeyEvent;
use termprompt::navigator::NavStep;
use termprompt::select::Select;
use termprompt::theme::Theme;

#[test]
fn builder_holds_the_configuration() {
    let choices = vec![String::from("a"), String::from("b")];
    let sel = Select::new("pick one", choices).page_size(4).build();
    assert_eq!(sel.msg, "pick one");
    assert_eq!(sel.page_size, 4);
    assert_eq!(sel.choices.len(), 2);
    assert!(sel.theme.is_none());
}

#[test]
fn navigator_windows_the_choices() {
    let choices: Vec<String> = (0..10).map(|i| format!("c{}", i)).collect();
    let sel = Select::new("q", choices).page_size(5).build();
    let nav = sel.navigator();
    assert_eq!(nav.len(), 10);
    assert_eq!(nav.rows(), 5);
}

#[test]
fn scenario_commit_with_and_without_scrolling() {
    let choices: Vec<String> = (0..10).map(|i| format!("c{}", i)).collect();
    let sel = Select::new("q", choices).page_size(5).build();

    // Down four times, then Enter: the fifth choice.
    let mut nav = sel.navigator();
    for _ in 0..4 {
        nav.handle_key(KeyEvent::Down);
    }
    match nav.handle_key(KeyEvent::Enter) {
        NavStep::Commit(i) => assert_eq!(sel.choices[i], "c4"),
        other => panic!("expected a commit, got {:?}", other),
    }

    // Down five times: one past the window scrolls, then commits the sixth.
    let mut nav = sel.navigator();
    for _ in 0..5 {
        nav.handle_key(KeyEvent::Down);
    }
    assert_eq!(nav.offset(), 1);
    match nav.handle_key(KeyEvent::Enter) {
        NavStep::Commit(i) => assert_eq!(sel.choices[i], "c5"),
        other => panic!("expected a commit, got {:?}", other),
    }
}

#[test]
fn intro_frame_and_finish_have_the_expected_shape() {
    let choices = vec![String::from("one"), String::from("two")];
    let sel = Select::new("q", choices).page_size(2).build();
    let theme = Theme::new();
    let nav = sel.navigator();

    let intro = sel.render_intro(&theme, nav.rows());
    // The question, a fresh line, a hidden cursor, one more fresh line.
    assert!(intro.contains("q"));
    assert!(intro.contains("\x1b[?25l"));
    assert_eq!(intro.matches('\n').count(), 2);

    let frame = sel.render_frame(&theme, &nav);
    assert!(frame.starts_with("\x1b[2A"));
    assert!(frame.contains("one"));
    assert!(frame.contains("two"));
    // Exactly one highlight marker: the cursor's row.
    assert_eq!(frame.matches('\u{276f}').count(), 1);

    let finish = sel.render_finish(&theme, nav.rows(), 1);
    assert!(finish.starts_with("\x1b[2K\x1b[1A\x1b[2K\x1b[1A\x1b[2K\x1b[1A"));
    assert!(finish.contains("\x1b[?25h"));
    assert!(finish.contains("two"));
    assert!(finish.ends_with("\r\n"));
}

#[test]
fn frame_highlight_follows_the_cursor() {
    let choices = vec![String::from("aa"), String::from("bb"), String::from("cc")];
    let sel = Select::new("q", choices).page_size(2).build();
    let theme = Theme::new();
    let mut nav = sel.navigator();
    nav.handle_key(KeyEvent::Down);
    let frame = sel.render_frame(&theme, &nav);
    let marker = frame.find('\u{276f}').unwrap();
    let bb = frame.find("bb").unwrap();
    let aa = frame.find("aa").unwrap();
    assert!(aa < marker && marker < bb);
}

#[test]
fn choice_impls_expose_text_and_value() {
    let s = String::from("hello");
    assert_eq!(s.text(), "hello");
    assert_eq!(s.value(), "hello");
    let s = "world";
    assert_eq!(Choice::text(&s), "world");
    let pair = (String::from("label"), 42u32);
    assert_eq!(pair.text(), "label");
    assert_eq!(*pair.value(), 42);
}
