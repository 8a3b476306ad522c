use triagebot::handler::{Action, Command, Event, IssueCommentEvent, LabelHandler};
use triagebot::labels::{apply_label_delta, resolve, Label, LabelDelta};
use triagebot::policy::{check_filter, Membership};
use triagebot::text::{same_text, starts_with};

fn label(name: &str) -> Label {
    Label { name: name.to_string() }
}

fn add(name: &str) -> LabelDelta {
    LabelDelta::Add(label(name))
}

fn remove(name: &str) -> LabelDelta {
    LabelDelta::Remove(label(name))
}

fn labels(names: &[&str]) -> Vec<Label> {
    names.iter().map(|n| label(n)).collect()
}

fn names(ls: &[Label]) -> Vec<String> {
    ls.iter().map(|l| l.name.clone()).collect()
}

fn comment_event(current: &[&str]) -> Event {
    Event::IssueComment(IssueCommentEvent {
        body: "@rustbot modify labels: ...".to_string(),
        user: "someone".to_string(),
        comment_url: "https://github.com/o/r/issues/1#issuecomment-9".to_string(),
        issue_number: 1,
        labels: labels(current),
    })
}

fn handler() -> LabelHandler {
    LabelHandler::new("rustbot".to_string())
}

#[test]
fn add_remove_add_by_non_member_sets_labels_once() {
    let event = comment_event(&["A-foo"]);
    let cmd = Command::Parsed(vec![add("E-easy"), remove("A-foo"), add("A-foo")]);
    match handler().handle_event(&event, &cmd, Membership::NotMember) {
        Action::SetLabels(ls) => {
            let mut got = names(&ls);
            got.sort();
            assert_eq!(got, vec!["A-foo".to_string(), "E-easy".to_string()]);
            assert_eq!(names(&ls), vec!["E-easy".to_string(), "A-foo".to_string()]);
        }
        _ => panic!("expected a label update"),
    }
}

#[test]
fn team_prefix_is_open_to_non_members() {
    let event = comment_event(&["T-compiler"]);
    let cmd = Command::Parsed(vec![remove("T-compiler")]);
    match handler().handle_event(&event, &cmd, Membership::NotMember) {
        Action::SetLabels(ls) => assert!(ls.is_empty()),
        _ => panic!("expected a label update"),
    }
}

#[test]
fn restricted_label_by_non_member_is_denied() {
    let event = comment_event(&["P-high"]);
    let cmd = Command::Parsed(vec![remove("P-high")]);
    match handler().handle_event(&event, &cmd, Membership::NotMember) {
        Action::Deny(msg) => {
            assert!(msg.contains("P-high"));
            assert_eq!(msg, "Label P-high can only be set by Rust team members");
        }
        _ => panic!("expected a denial"),
    }
}

#[test]
fn malformed_command_reports_parser_message_and_url() {
    let event = comment_event(&[]);
    let cmd = Command::Malformed("expected label delta".to_string());
    match handler().handle_event(&event, &cmd, Membership::NotMember) {
        Action::ReportParseError(msg) => {
            assert!(msg.contains("expected label delta"));
            assert!(msg.contains("https://github.com/o/r/issues/1#issuecomment-9"));
            assert_eq!(
                msg,
                "Parsing label command in [comment](https://github.com/o/r/issues/1#issuecomment-9) failed: expected label delta"
            );
        }
        _ => panic!("expected a parse error report"),
    }
}

#[test]
fn other_events_are_ignored() {
    let cmd = Command::Parsed(vec![add("P-high")]);
    assert!(matches!(
        handler().handle_event(&Event::Other, &cmd, Membership::NotMember),
        Action::Nothing
    ));
}

#[test]
fn comment_without_command_is_ignored() {
    let event = comment_event(&["A-foo"]);
    assert!(matches!(
        handler().handle_event(&event, &Command::Absent, Membership::Member),
        Action::Nothing
    ));
}

#[test]
fn one_denied_delta_rejects_the_whole_command() {
    let event = comment_event(&["A-foo"]);
    let cmd = Command::Parsed(vec![add("E-easy"), remove("A-foo"), add("P-high"), add("C-bug")]);
    match handler().handle_event(&event, &cmd, Membership::NotMember) {
        Action::Deny(msg) => assert_eq!(msg, "Label P-high can only be set by Rust team members"),
        _ => panic!("expected a denial"),
    }
}

#[test]
fn first_denied_label_is_the_one_reported() {
    let event = comment_event(&[]);
    let cmd = Command::Parsed(vec![add("P-low"), add("P-high")]);
    match handler().handle_event(&event, &cmd, Membership::NotMember) {
        Action::Deny(msg) => assert!(msg.contains("P-low") && !msg.contains("P-high")),
        _ => panic!("expected a denial"),
    }
}

#[test]
fn deltas_already_in_effect_lead_to_no_update() {
    let event = comment_event(&["A-foo", "E-easy"]);
    let cmd = Command::Parsed(vec![add("A-foo"), remove("C-bug"), add("E-easy")]);
    assert!(matches!(
        handler().handle_event(&event, &cmd, Membership::NotMember),
        Action::Nothing
    ));
}

#[test]
fn member_may_set_any_label() {
    let event = comment_event(&[]);
    let cmd = Command::Parsed(vec![add("P-high")]);
    match handler().handle_event(&event, &cmd, Membership::Member) {
        Action::SetLabels(ls) => assert_eq!(names(&ls), vec!["P-high".to_string()]),
        _ => panic!("expected a label update"),
    }
}

#[test]
fn failed_membership_check_denies_with_caveat() {
    let event = comment_event(&[]);
    let cmd = Command::Parsed(vec![add("P-high")]);
    match handler().handle_event(&event, &cmd, Membership::CheckFailed) {
        Action::Deny(msg) => assert_eq!(
            msg,
            "Label P-high can only be set by Rust team members;we were unable to check if you are a team member."
        ),
        _ => panic!("expected a denial"),
    }
}

#[test]
fn failed_membership_check_never_grants_restricted_labels() {
    for name in ["P-high", "regression-from-stable", "I-nominated", "beta-accepted", ""] {
        assert!(check_filter(name, Membership::CheckFailed).is_err());
        assert!(check_filter(name, Membership::NotMember).is_err());
        assert!(check_filter(name, Membership::Member).is_ok());
    }
    assert!(check_filter("A-diagnostics", Membership::CheckFailed).is_ok());
}

#[test]
fn open_namespaces_and_tags_are_allowed_for_non_members() {
    for name in [
        "C-bug",
        "A-parser",
        "E-mentor",
        "NLL-complete",
        "O-windows",
        "S-blocked",
        "T-lang",
        "WG-embedded",
        "I-compilemem",
        "I-compiletime",
        "I-crash",
        "I-hang",
        "I-ICE",
        "I-slow",
    ] {
        assert!(check_filter(name, Membership::NotMember).is_ok(), "{}", name);
    }
}

#[test]
fn near_misses_of_open_labels_are_restricted() {
    for name in ["I-ICEx", "I-slo", "i-slow", "c-bug", "C", "WG", "NLL", "I-"] {
        assert!(check_filter(name, Membership::NotMember).is_err(), "{}", name);
    }
}

#[test]
fn resolving_twice_changes_nothing_the_second_time() {
    let deltas = vec![add("E-easy"), remove("A-foo"), add("C-bug")];
    let mut first = labels(&["A-foo", "T-lang"]);
    assert!(resolve(&mut first, &deltas));
    let mut second = first.clone();
    assert!(!resolve(&mut second, &deltas));
    assert_eq!(names(&first), names(&second));
    assert_eq!(
        names(&first),
        vec!["T-lang".to_string(), "E-easy".to_string(), "C-bug".to_string()]
    );
}

#[test]
fn add_then_remove_reports_a_change_with_the_same_labels() {
    let mut ls = labels(&["A-foo"]);
    assert!(resolve(&mut ls, &vec![add("E-easy"), remove("E-easy")]));
    assert_eq!(names(&ls), vec!["A-foo".to_string()]);
}

#[test]
fn single_deltas_apply_as_set_operations() {
    let mut ls = labels(&["A-foo", "B-bar"]);
    assert!(!apply_label_delta(&mut ls, &add("A-foo")));
    assert!(!apply_label_delta(&mut ls, &remove("C-baz")));
    assert!(apply_label_delta(&mut ls, &remove("A-foo")));
    assert_eq!(names(&ls), vec!["B-bar".to_string()]);
    assert!(apply_label_delta(&mut ls, &add("C-baz")));
    assert_eq!(names(&ls), vec!["B-bar".to_string(), "C-baz".to_string()]);
}

#[test]
fn resolving_nothing_changes_nothing() {
    let mut ls = labels(&["A-foo"]);
    assert!(!resolve(&mut ls, &vec![]));
    assert_eq!(names(&ls), vec!["A-foo".to_string()]);
    let mut empty = labels(&[]);
    assert!(!resolve(&mut empty, &vec![remove("A-foo")]));
    assert!(empty.is_empty());
}

#[test]
fn delta_label_is_the_named_label() {
    assert_eq!(add("A-foo").label().name, "A-foo");
    assert_eq!(remove("E-easy").label().name, "E-easy");
}

#[test]
fn prefix_and_text_comparisons() {
    assert!(starts_with("NLL-fixed", "NLL-"));
    assert!(starts_with("abc", ""));
    assert!(!starts_with("NL", "NLL-"));
    assert!(!starts_with("ANLL-", "NLL-"));
    assert!(same_text("I-ICE", "I-ICE"));
    assert!(!same_text("I-ICE", "I-IC"));
    assert!(!same_text("I-ICE", "I-ICF"));
    assert!(starts_with("É-é", "É-"));
}
