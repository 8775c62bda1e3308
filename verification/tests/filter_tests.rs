use shownotes::event::{Component, HandleKeyResult, KeyCode, KeyEvent};
use shownotes::filter::Filter;

fn filter_with_applied(applied: &str) -> Filter {
    Filter { active: false, input: String::new(), applied: Some(applied.to_string()), previous: None }
}

fn active_filter(input: &str, previous: Option<&str>) -> Filter {
    Filter {
        active: true,
        input: input.to_string(),
        applied: None,
        previous: previous.map(|p| p.to_string()),
    }
}

#[test]
fn start_clears_input_and_saves_previous() {
    let mut filter = filter_with_applied("old");
    filter.start();
    assert!(filter.is_active());
    assert!(filter.input.is_empty());
    assert_eq!(filter.previous, Some("old".to_string()));
    assert!(filter.applied.is_none());
}

#[test]
fn cancel_restores_previous_filter() {
    let mut filter = active_filter("new", Some("old"));
    filter.cancel();
    assert!(!filter.is_active());
    assert!(filter.input.is_empty());
    assert_eq!(filter.applied, Some("old".to_string()));
    assert!(filter.previous.is_none());
}

#[test]
fn cancel_clears_state_when_no_previous() {
    let mut filter = active_filter("new", None);
    filter.cancel();
    assert!(!filter.is_active());
    assert!(filter.input.is_empty());
    assert!(filter.applied.is_none());
    assert!(filter.previous.is_none());
}

#[test]
fn submit_sets_applied_filter() {
    let mut filter = active_filter("search", Some("old"));
    filter.submit();
    assert!(!filter.is_active());
    assert!(filter.input.is_empty());
    assert_eq!(filter.applied, Some("search".to_string()));
    assert!(filter.previous.is_none());
}

#[test]
fn submit_clears_applied_when_input_empty() {
    let mut filter = active_filter("", Some("old"));
    filter.submit();
    assert!(!filter.is_active());
    assert!(filter.input.is_empty());
    assert!(filter.applied.is_none());
    assert!(filter.previous.is_none());
}

#[test]
fn filter_push_char_appends_to_input() {
    let mut filter = active_filter("ab", None);
    filter.push_char('c');
    assert_eq!(filter.input, "abc");
}

#[test]
fn filter_pop_char_removes_last_character() {
    let mut filter = active_filter("abc", None);
    filter.pop_char();
    assert_eq!(filter.input, "ab");
}

#[test]
fn filter_pop_char_does_nothing_on_empty_input() {
    let mut filter = active_filter("", None);
    filter.pop_char();
    assert!(filter.input.is_empty());
}

#[test]
fn has_applied_returns_true_when_set() {
    let filter = filter_with_applied("test");
    assert!(filter.has_applied());
}

#[test]
fn has_applied_returns_false_when_not_set() {
    let filter = Filter::new();
    assert!(!filter.has_applied());
}

#[test]
fn filter_multiple_start_cancel_cycles() {
    let mut filter = Filter::new();
    filter.start();
    filter.push_char('a');
    filter.cancel();
    assert!(!filter.is_active());
    filter.start();
    filter.push_char('b');
    filter.cancel();
    assert!(!filter.is_active());
    assert!(filter.input.is_empty());
    assert!(filter.applied.is_none());
}

#[test]
fn start_submit_start_preserves_applied() {
    let mut filter = Filter::new();
    filter.start();
    filter.push_char('x');
    filter.submit();
    assert_eq!(filter.applied, Some("x".to_string()));
    filter.start();
    assert_eq!(filter.previous, Some("x".to_string()));
    assert!(filter.applied.is_none());
    filter.cancel();
    assert_eq!(filter.applied, Some("x".to_string()));
}

#[test]
fn filter_handle_key_returns_ignored_when_inactive() {
    let mut filter = Filter::new();
    let result = filter.handle_key(KeyEvent::from(KeyCode::Char('a')));
    assert_eq!(result, HandleKeyResult::ignored());
}

#[test]
fn handle_key_esc_cancels_filter() {
    let mut filter = Filter::new();
    filter.start();
    for c in "test".chars() {
        filter.push_char(c);
    }
    let result = filter.handle_key(KeyEvent::from(KeyCode::Esc));
    assert_eq!(result, HandleKeyResult::consumed());
    assert!(!filter.is_active());
    assert!(filter.input.is_empty());
}

#[test]
fn handle_key_enter_submits_filter() {
    let mut filter = Filter::new();
    filter.start();
    for c in "test".chars() {
        filter.push_char(c);
    }
    let result = filter.handle_key(KeyEvent::from(KeyCode::Enter));
    assert_eq!(result, HandleKeyResult::consumed());
    assert!(!filter.is_active());
    assert_eq!(filter.applied, Some("test".to_string()));
}

#[test]
fn filter_handle_key_backspace_pops_char() {
    let mut filter = Filter::new();
    filter.start();
    for c in "abc".chars() {
        filter.push_char(c);
    }
    let result = filter.handle_key(KeyEvent::from(KeyCode::Backspace));
    assert_eq!(result, HandleKeyResult::consumed());
    assert_eq!(filter.input, "ab");
}

#[test]
fn filter_handle_key_char_pushes_char() {
    let mut filter = Filter::new();
    filter.start();
    let result = filter.handle_key(KeyEvent::from(KeyCode::Char('x')));
    assert_eq!(result, HandleKeyResult::consumed());
    assert_eq!(filter.input, "x");
}

#[test]
fn filter_handle_key_consumes_all_keys_when_active() {
    let mut filter = Filter::new();
    filter.start();
    let result = filter.handle_key(KeyEvent::from(KeyCode::Up));
    assert_eq!(result, HandleKeyResult::consumed());
}

#[test]
fn cancel_after_start_restores_the_applied_pattern() {
    let mut filter = filter_with_applied("kept");
    filter.start();
    filter.push_char('z');
    filter.cancel();
    assert_eq!(filter.applied, Some("kept".to_string()));
}

#[test]
fn submit_right_after_start_removes_the_filter() {
    let mut filter = filter_with_applied("kept");
    filter.start();
    filter.submit();
    assert!(filter.applied.is_none());
    assert!(!filter.is_active());
}

#[test]
fn cancel_after_typing_and_erasing_restores_applied() {
    let mut f = filter_with_applied("x");
    f.start();
    f.push_char('a');
    f.push_char('b');
    f.pop_char();
    f.push_char('c');
    f.pop_char();
    f.pop_char();
    f.pop_char();
    f.cancel();
    assert_eq!(f.applied, Some("x".to_string()));
    assert_eq!(f.input, "");
    assert!(!f.active);
    assert_eq!(f.previous, None);
}
