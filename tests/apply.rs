use zotfile::{accepts, confirmed, step, ApplyAction, ApplyEvent, ApplyState};

const RENDERED: &str = "# banner\n\nx = 1\n";

fn diffing() -> ApplyState {
    ApplyState::Diffing { rendered: RENDERED.to_string() }
}

#[test]
fn answers() {
    assert!(confirmed("y\n"));
    assert!(confirmed("Y"));
    assert!(confirmed("  y  \n"));
    assert!(!confirmed("n\n"));
    assert!(!confirmed(""));
    assert!(!confirmed("\n"));
    assert!(!confirmed("yes\n"));
    assert!(accepts("y"));
    assert!(!accepts(" y"));
}

#[test]
fn up_to_date_when_diff_empty_and_file_exists() {
    let (s, a) = step(diffing(), ApplyEvent::Diffed { diff: String::new(), target_exists: true });
    assert!(matches!(s, ApplyState::Done));
    assert!(matches!(a, ApplyAction::ReportUpToDate));
}

#[test]
fn missing_file_is_reviewed_even_with_empty_diff() {
    let (s, a) = step(diffing(), ApplyEvent::Diffed { diff: String::new(), target_exists: false });
    assert!(matches!(s, ApplyState::Reviewing { target_exists: false, .. }));
    assert!(matches!(a, ApplyAction::ShowDiff));
    let (s, a) = step(s, ApplyEvent::PagerClosed);
    assert!(matches!(s, ApplyState::Confirming { .. }));
    assert!(matches!(a, ApplyAction::AskCreate));
}

#[test]
fn answer_n_skips() {
    let (s, a) = step(diffing(), ApplyEvent::Diffed { diff: "-old\n+new\n".to_string(), target_exists: true });
    assert!(matches!(a, ApplyAction::ShowDiff));
    let (s, a) = step(s, ApplyEvent::PagerClosed);
    assert!(matches!(a, ApplyAction::AskOverwrite));
    let (s, a) = step(s, ApplyEvent::Answered("n\n".to_string()));
    assert!(matches!(s, ApplyState::Done));
    assert!(matches!(a, ApplyAction::Skip));
}

#[test]
fn answer_y_writes_the_rendered_text() {
    let (s, _) = step(diffing(), ApplyEvent::Diffed { diff: "+x = 1\n".to_string(), target_exists: true });
    let (s, _) = step(s, ApplyEvent::PagerClosed);
    let (s, a) = step(s, ApplyEvent::Answered("y\n".to_string()));
    assert!(matches!(s, ApplyState::Writing));
    match a {
        ApplyAction::WriteFile(text) => assert_eq!(text, RENDERED),
        other => panic!("unexpected {:?}", other),
    }
    let (s, a) = step(s, ApplyEvent::Written);
    assert!(matches!(s, ApplyState::Done));
    assert!(matches!(a, ApplyAction::ReportSaved));
    // The file now holds the rendered text; a fresh diff against it is empty.
    let (s, a) = step(diffing(), ApplyEvent::Diffed { diff: String::new(), target_exists: true });
    assert!(matches!(s, ApplyState::Done));
    assert!(matches!(a, ApplyAction::ReportUpToDate));
}

#[test]
fn unreadable_answer_ends_without_writing() {
    let (s, a) = step(ApplyState::Confirming { rendered: RENDERED.to_string() }, ApplyEvent::AnswerUnreadable);
    assert!(matches!(s, ApplyState::Done));
    assert!(matches!(a, ApplyAction::ReportUnreadable));
}

#[test]
fn stray_event_is_ignored() {
    let (s, a) = step(ApplyState::Done, ApplyEvent::Written);
    assert!(matches!(s, ApplyState::Done));
    assert!(matches!(a, ApplyAction::Ignore));
    let (s, a) = step(diffing(), ApplyEvent::PagerClosed);
    assert!(matches!(s, ApplyState::Diffing { .. }));
    assert!(matches!(a, ApplyAction::Ignore));
}
