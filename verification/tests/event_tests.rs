use shownotes::event::{HandleKeyResult, KeyCode, KeyEvent, KeyStatus};
use shownotes::tui_action::TuiAction;

#[test]
fn ignored_returns_ignored_status() {
    let result = HandleKeyResult::ignored();
    assert!(!result.is_consumed());
    assert!(result.actions.is_empty());
}

#[test]
fn consumed_returns_consumed_status() {
    let result = HandleKeyResult::consumed();
    assert!(result.is_consumed());
    assert!(result.actions.is_empty());
}

#[test]
fn with_action_returns_consumed_status_with_action() {
    let action = TuiAction::Quit;
    let result = HandleKeyResult::with_action(action.clone());
    assert!(result.is_consumed());
    assert_eq!(result.actions, vec![action]);
}

#[test]
fn is_consumed_returns_true_for_consumed() {
    let result = HandleKeyResult::consumed();
    assert!(result.is_consumed());
}

#[test]
fn is_consumed_returns_false_for_ignored() {
    let result = HandleKeyResult::ignored();
    assert!(!result.is_consumed());
}

#[test]
fn key_status_equality_works() {
    assert_eq!(KeyStatus::Consumed, KeyStatus::Consumed);
    assert_eq!(KeyStatus::Ignored, KeyStatus::Ignored);
    assert_ne!(KeyStatus::Consumed, KeyStatus::Ignored);
}

#[test]
fn key_event_from_code_keeps_the_code() {
    let key = KeyEvent::from(KeyCode::F(5));
    assert_eq!(key.code, KeyCode::F(5));
}
