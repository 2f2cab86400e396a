use termprompt::input::{CommitOutcome, Input};
use termprompt::validation::{validate_all, MaxLen, MinLen, Required, Validation};

#[test]
fn required_rejects_the_empty_string() {
    let err = Required.validate(&String::new()).unwrap_err();
    assert_eq!(err.0, "required");
    assert!(Required.validate(&String::from("x")).is_ok());
}

#[test]
fn required_rejects_the_empty_list() {
    let err = Required.validate(&Vec::<u32>::new()).unwrap_err();
    assert_eq!(err.0, "should be at least one");
    assert!(Required.validate(&vec![1u32]).is_ok());
}

#[test]
fn min_len_message_names_the_bound() {
    let err = MinLen(3).validate(&String::from("ab")).unwrap_err();
    assert_eq!(err.0, "Should at least 3 charecters long");
    assert!(MinLen(3).validate(&String::from("abc")).is_ok());
    let err = MinLen(12).validate(&vec![1u8]).unwrap_err();
    assert_eq!(err.0, "Should at least 12");
}

#[test]
fn max_len_bounds_a_list() {
    assert!(MaxLen(2).validate(&vec![1u8, 2]).is_ok());
    let err = MaxLen(2).validate(&vec![1u8, 2, 3]).unwrap_err();
    assert_eq!(err.0, "at least length");
}

#[test]
fn empty_chain_accepts_everything() {
    let checks: Vec<Box<dyn Validation<String>>> = Vec::new();
    assert!(validate_all(&checks, &String::new()).is_ok());
}

#[test]
fn the_first_failure_wins() {
    let input = Input::new("name").validate(MinLen(5)).validate(MinLen(10)).build();
    match input.commit(&String::from("abc")) {
        CommitOutcome::Rejected(m) => assert_eq!(m, "Should at least 5 charecters long"),
        other => panic!("expected a rejection, got {:?}", other),
    }
}

#[test]
fn all_passing_checks_accept_the_value() {
    let input = Input::new("name").validate(MinLen(2)).required().build();
    match input.commit(&String::from("abc")) {
        CommitOutcome::Accepted(v) => assert_eq!(v, "abc"),
        other => panic!("expected acceptance, got {:?}", other),
    }
}

#[test]
fn empty_commit_with_default_takes_the_default_verbatim() {
    // A default set and an empty buffer: the default is the answer.
    let input = Input::new("What is your name?").default("Rasmus").build();
    match input.commit(&String::new()) {
        CommitOutcome::Accepted(v) => assert_eq!(v, "Rasmus"),
        other => panic!("expected acceptance, got {:?}", other),
    }
}

#[test]
fn empty_commit_with_default_bypasses_the_checks() {
    let input = Input::new("name").default("Rasmus").required().build();
    match input.commit(&String::new()) {
        CommitOutcome::Accepted(v) => assert_eq!(v, "Rasmus"),
        other => panic!("expected acceptance, got {:?}", other),
    }
}

#[test]
fn empty_commit_without_default_runs_the_checks() {
    let input = Input::new("name").required().build();
    match input.commit(&String::new()) {
        CommitOutcome::Rejected(m) => assert_eq!(m, "Should at least 1 charecters long"),
        other => panic!("expected a rejection, got {:?}", other),
    }
}

#[test]
fn nonempty_commit_ignores_the_default() {
    let input = Input::new("name").default("Rasmus").build();
    match input.commit(&String::from("Ada")) {
        CommitOutcome::Accepted(v) => assert_eq!(v, "Ada"),
        other => panic!("expected acceptance, got {:?}", other),
    }
}
