use shownotes::event::{Component, HandleKeyResult, KeyCode, KeyEvent};

struct InactiveComponent;

impl Component for InactiveComponent {
    fn handle_key(&mut self, _key: KeyEvent) -> HandleKeyResult {
        HandleKeyResult::consumed()
    }
}

struct ActiveComponent;

impl Component for ActiveComponent {
    fn is_active(&self) -> bool {
        true
    }

    fn handle_key(&mut self, _key: KeyEvent) -> HandleKeyResult {
        HandleKeyResult::consumed()
    }
}

struct IgnoringComponent;

impl Component for IgnoringComponent {}

#[test]
fn default_is_active_returns_false() {
    let component = InactiveComponent;
    assert!(!component.is_active());
}

#[test]
fn overridden_is_active_returns_true() {
    let component = ActiveComponent;
    assert!(component.is_active());
}

#[test]
fn default_handle_key_returns_ignored() {
    let mut component = IgnoringComponent;
    let result = component.handle_key(KeyEvent::from(KeyCode::Char('a')));
    assert!(!result.is_consumed());
}

#[test]
fn overridden_handle_key_returns_consumed() {
    let mut component = ActiveComponent;
    let result = component.handle_key(KeyEvent::from(KeyCode::Char('a')));
    assert!(result.is_consumed());
}
