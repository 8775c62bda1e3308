use shownotes::event::{Component, KeyCode, KeyEvent};
use shownotes::tui_action::TuiAction;
use shownotes::url_input::UrlInput;

#[test]
fn start_clears_input_and_activates() {
    let mut url_input = UrlInput::new();
    url_input.start();
    assert!(url_input.is_active());
    assert!(url_input.input.is_empty());
}

#[test]
fn url_input_cancel_clears_state() {
    let mut url_input = UrlInput::new();
    url_input.start();
    url_input.push_char('h');
    url_input.push_char('t');
    url_input.cancel();
    assert!(!url_input.is_active());
    assert!(url_input.input.is_empty());
}

#[test]
fn url_input_push_char_appends_to_input() {
    let mut url_input = UrlInput::new();
    url_input.start();
    url_input.push_char('a');
    url_input.push_char('b');
    assert_eq!(url_input.input(), "ab");
}

#[test]
fn url_input_pop_char_removes_last_character() {
    let mut url_input = UrlInput::new();
    url_input.start();
    for c in "http".chars() {
        url_input.push_char(c);
    }
    url_input.pop_char();
    assert_eq!(url_input.input(), "htt");
}

#[test]
fn url_input_pop_char_does_nothing_on_empty_input() {
    let mut url_input = UrlInput::new();
    url_input.start();
    url_input.pop_char();
    assert!(url_input.input().is_empty());
}

#[test]
fn url_input_multiple_start_cancel_cycles() {
    let mut url_input = UrlInput::new();
    url_input.start();
    url_input.push_char('a');
    url_input.cancel();
    assert!(!url_input.is_active());
    url_input.start();
    url_input.push_char('b');
    url_input.cancel();
    assert!(!url_input.is_active());
    assert!(url_input.input.is_empty());
}

#[test]
fn default_creates_inactive_url_input() {
    let url_input = UrlInput::default();
    assert!(!url_input.is_active());
    assert!(url_input.input.is_empty());
}

#[test]
fn url_input_handle_key_returns_ignored_when_inactive() {
    let mut url_input = UrlInput::new();
    let result = url_input.handle_key(KeyEvent::from(KeyCode::Char('a')));
    assert!(!result.is_consumed());
}

#[test]
fn handle_key_esc_cancels_url_input() {
    let mut url_input = UrlInput::new();
    url_input.start();
    url_input.push_char('h');
    let result = url_input.handle_key(KeyEvent::from(KeyCode::Esc));
    assert!(result.is_consumed());
    assert!(!url_input.is_active());
    assert!(url_input.input.is_empty());
}

#[test]
fn handle_key_enter_returns_url_submit_action() {
    let mut url_input = UrlInput::new();
    url_input.start();
    url_input.push_char('h');
    url_input.push_char('t');
    let result = url_input.handle_key(KeyEvent::from(KeyCode::Enter));
    assert!(result.is_consumed());
    assert_eq!(result.actions.len(), 1);
    assert_eq!(result.actions.first(), Some(&TuiAction::UrlSubmit("ht".to_string())));
    assert!(!url_input.is_active());
}

#[test]
fn handle_key_enter_submits_empty_string() {
    let mut url_input = UrlInput::new();
    url_input.start();
    let result = url_input.handle_key(KeyEvent::from(KeyCode::Enter));
    assert!(result.is_consumed());
    assert_eq!(result.actions.len(), 1);
    assert_eq!(result.actions.first(), Some(&TuiAction::UrlSubmit(String::new())));
    assert!(!url_input.is_active());
}

#[test]
fn url_input_handle_key_backspace_pops_char() {
    let mut url_input = UrlInput::new();
    url_input.start();
    url_input.push_char('a');
    url_input.push_char('b');
    let result = url_input.handle_key(KeyEvent::from(KeyCode::Backspace));
    assert!(result.is_consumed());
    assert_eq!(url_input.input(), "a");
}

#[test]
fn url_input_handle_key_char_pushes_char() {
    let mut url_input = UrlInput::new();
    url_input.start();
    let result = url_input.handle_key(KeyEvent::from(KeyCode::Char('x')));
    assert!(result.is_consumed());
    assert_eq!(url_input.input(), "x");
}

#[test]
fn url_input_handle_key_consumes_all_keys_when_active() {
    let mut url_input = UrlInput::new();
    url_input.start();
    let result = url_input.handle_key(KeyEvent::from(KeyCode::F(1)));
    assert!(result.is_consumed());
}
