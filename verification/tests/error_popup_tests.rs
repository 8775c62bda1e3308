use shownotes::error_popup::ErrorPopup;
use shownotes::event::{Component, HandleKeyResult, KeyCode, KeyEvent};

#[test]
fn new_creates_inactive_popup() {
    let popup = ErrorPopup::new();
    assert!(!popup.is_active());
    assert!(popup.message.is_empty());
}

#[test]
fn default_creates_inactive_popup() {
    let popup = ErrorPopup::default();
    assert!(!popup.is_active());
}

#[test]
fn show_sets_message_and_activates() {
    let mut popup = ErrorPopup::new();
    popup.show("Something went wrong".to_string());
    assert!(popup.is_active());
    assert_eq!(popup.message, "Something went wrong");
}

#[test]
fn dismiss_clears_message_and_deactivates() {
    let mut popup = ErrorPopup::new();
    popup.show("Error message".to_string());
    popup.dismiss();
    assert!(!popup.is_active());
    assert!(popup.message.is_empty());
}

#[test]
fn show_replaces_existing_message() {
    let mut popup = ErrorPopup::new();
    popup.show("First error".to_string());
    popup.show("Second error".to_string());
    assert!(popup.is_active());
    assert_eq!(popup.message, "Second error");
}

#[test]
fn dismiss_when_inactive_does_nothing() {
    let mut popup = ErrorPopup::new();
    popup.dismiss();
    assert!(!popup.is_active());
}

#[test]
fn show_dismiss_cycle() {
    let mut popup = ErrorPopup::new();
    popup.show("Error 1".to_string());
    assert!(popup.is_active());
    popup.dismiss();
    assert!(!popup.is_active());
    popup.show("Error 2".to_string());
    assert!(popup.is_active());
    popup.dismiss();
    assert!(!popup.is_active());
    assert!(popup.message.is_empty());
}

#[test]
fn error_popup_handle_key_returns_ignored_when_inactive() {
    let mut popup = ErrorPopup::new();
    let result = popup.handle_key(KeyEvent::from(KeyCode::Char('a')));
    assert_eq!(result, HandleKeyResult::ignored());
}

#[test]
fn handle_key_dismisses_on_any_key() {
    let mut popup = ErrorPopup::new();
    popup.show("Error".to_string());
    let _ = popup.handle_key(KeyEvent::from(KeyCode::Char('a')));
    assert!(!popup.is_active());
}

#[test]
fn error_popup_handle_key_consumes_all_keys_when_active() {
    let keys = [
        KeyEvent::from(KeyCode::Char('a')),
        KeyEvent::from(KeyCode::Enter),
        KeyEvent::from(KeyCode::Esc),
        KeyEvent::from(KeyCode::Backspace),
        KeyEvent::from(KeyCode::Up),
    ];
    for key in keys {
        let mut popup = ErrorPopup::new();
        popup.show("Error".to_string());
        let result = popup.handle_key(key);
        assert_eq!(result, HandleKeyResult::consumed());
    }
}
