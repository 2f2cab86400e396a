use termprompt::events::KeyEvent;
use termprompt::multiselect::{MultiSelect, MultiSelectState, MultiSelectStep};
use termprompt::validation::{MinLen, Required};

#[test]
fn toggle_selects_and_deselects() {
    let mut st = MultiSelectState::new(5, 5, 0, 0);
    st.handle_key(KeyEvent::Char(' '));
    assert!(st.is_selected(0));
    assert_eq!(st.selected_count(), 1);
    st.handle_key(KeyEvent::Char(' '));
    assert!(!st.is_selected(0));
    assert_eq!(st.selected_count(), 0);
}

#[test]
fn selection_never_outgrows_max() {
    let mut st = MultiSelectState::new(5, 5, 0, 2);
    for _ in 0..5 {
        st.handle_key(KeyEvent::Char(' '));
        st.handle_key(KeyEvent::Down);
        assert!(st.selected_count() <= 2);
    }
    assert_eq!(st.selected_count(), 2);
    assert!(st.is_selected(0));
    assert!(st.is_selected(1));
    assert!(!st.is_selected(2));
}

#[test]
fn toggling_off_is_allowed_even_when_full() {
    let mut st = MultiSelectState::new(3, 3, 0, 1);
    st.toggle();
    assert!(st.is_selected(0));
    // Full: toggling another choice on is refused.
    st.handle_key(KeyEvent::Down);
    st.toggle();
    assert!(!st.is_selected(1));
    // Toggling the selected one off still works.
    st.handle_key(KeyEvent::Up);
    st.toggle();
    assert_eq!(st.selected_count(), 0);
}

#[test]
fn enter_below_min_rejects_with_a_message_and_keeps_the_selection() {
    let mut st = MultiSelectState::new(6, 4, 2, 0);
    st.handle_key(KeyEvent::Char(' '));
    match st.handle_key(KeyEvent::Enter) {
        MultiSelectStep::Reject(m) => assert_eq!(m, "must select at least 2"),
        other => panic!("expected a rejection, got {:?}", other),
    }
    // The prompt stays open and the selection is preserved.
    assert_eq!(st.selected_count(), 1);
    assert!(st.is_selected(0));
}

#[test]
fn enter_commits_ascending_regardless_of_selection_order() {
    let mut st = MultiSelectState::new(6, 6, 2, 0);
    // Select index 3 first, then index 1.
    for _ in 0..3 {
        st.handle_key(KeyEvent::Down);
    }
    st.handle_key(KeyEvent::Char(' '));
    st.handle_key(KeyEvent::Up);
    st.handle_key(KeyEvent::Up);
    st.handle_key(KeyEvent::Char(' '));
    match st.handle_key(KeyEvent::Enter) {
        MultiSelectStep::Commit(sel) => assert_eq!(sel, vec![1, 3]),
        other => panic!("expected a commit, got {:?}", other),
    }
}

#[test]
fn ctrl_c_aborts() {
    let mut st = MultiSelectState::new(2, 2, 0, 0);
    assert_eq!(st.handle_key(KeyEvent::Ctrl('c')), MultiSelectStep::Abort);
}

#[test]
fn builder_collects_bounds_and_checks() {
    let choices = vec![String::from("a"), String::from("b"), String::from("c")];
    let ms = MultiSelect::new("pick", choices).page_size(2).min(1).max(2).validate(
        Required,
    ).build();
    assert_eq!(ms.msg, "pick");
    assert_eq!(ms.page_size, 2);
    assert_eq!(ms.min, 1);
    assert_eq!(ms.max, 2);
    assert_eq!(ms.validations.len(), 1);
    let st = ms.state();
    assert_eq!(st.nav().len(), 3);
    assert_eq!(st.nav().rows(), 2);
}

#[test]
fn validate_reports_the_first_failure() {
    let choices = vec![String::from("a")];
    let ms = MultiSelect::new("pick", choices).validate(Required).validate(MinLen(2)).build();
    assert!(ms.validate(&vec![0, 1]).is_ok());
    let err = ms.validate(&vec![]).unwrap_err();
    assert_eq!(err.0, "should be at least one");
    let err = ms.validate(&vec![0]).unwrap_err();
    assert_eq!(err.0, "Should at least 2");
}

#[test]
fn render_finish_joins_texts_in_index_order() {
    let choices = vec![String::from("ant"), String::from("bee"), String::from("cow")];
    let ms = MultiSelect::new("q", choices).build();
    let theme = termprompt::theme::Theme::new();
    let out = ms.render_finish(&theme, 3, &vec![0, 2]);
    assert!(out.contains("ant, cow"));
    assert!(!out.contains("cow, ant"));
}
