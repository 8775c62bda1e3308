use shownotes::event::{Component, HandleKeyResult, KeyCode, KeyEvent};
use shownotes::tui_action::TuiAction;
use shownotes::which_key::{Key, KeyNode, WhichKey};

/// A key map binding `g` as a group and `g m` to launching mpv.
fn sequence_map(path: &[Key]) -> Option<KeyNode> {
    match path {
        [Key::Char('g')] => Some(KeyNode::Branch),
        [Key::Char('g'), Key::Char('m')] => Some(KeyNode::Leaf(TuiAction::LaunchMpv)),
        _ => None,
    }
}

/// A key map binding `g`, then `g s`, as groups and `g s f` to fuzzy notes.
fn nested_map(path: &[Key]) -> Option<KeyNode> {
    match path {
        [Key::Char('g')] => Some(KeyNode::Branch),
        [Key::Char('g'), Key::Char('s')] => Some(KeyNode::Branch),
        [Key::Char('g'), Key::Char('s'), Key::Char('f')] => Some(KeyNode::Leaf(TuiAction::FuzzyNotes)),
        _ => None,
    }
}

fn empty_map(_path: &[Key]) -> Option<KeyNode> {
    None
}

/// Feeds `event` to `which_key`, looking the extended sequence up in `map`.
fn press(which_key: &mut WhichKey, event: KeyEvent, map: fn(&[Key]) -> Option<KeyNode>) -> HandleKeyResult {
    let key = Key::from_keycode(event.code);
    let node = match key {
        Some(k) => map(&which_key.lookup_path(k)),
        None => None,
    };
    which_key.handle_key_with_node(key, node)
}

#[test]
fn handle_key_returns_ignored_when_not_pending() {
    let mut which_key = WhichKey::default();
    let result = press(&mut which_key, KeyEvent::from(KeyCode::Char('a')), empty_map);
    assert_eq!(result, HandleKeyResult::ignored());
}

#[test]
fn handle_key_esc_dismisses() {
    let mut which_key = WhichKey::default();
    which_key.push_key(Key::Char('g'));
    let result = press(&mut which_key, KeyEvent::from(KeyCode::Esc), empty_map);
    assert_eq!(result, HandleKeyResult::consumed());
    assert!(!which_key.is_pending());
    assert!(!which_key.active);
}

#[test]
fn handle_key_backspace_pops_key() {
    let mut which_key = WhichKey::default();
    which_key.push_key(Key::Char('g'));
    which_key.push_key(Key::Char('m'));
    let result = press(&mut which_key, KeyEvent::from(KeyCode::Backspace), sequence_map);
    assert_eq!(result, HandleKeyResult::consumed());
    assert_eq!(which_key.pending_keys, vec![Key::Char('g')]);
}

#[test]
fn handle_key_backspace_dismisses_when_empty() {
    let mut which_key = WhichKey::default();
    which_key.push_key(Key::Char('g'));
    let result = press(&mut which_key, KeyEvent::from(KeyCode::Backspace), empty_map);
    assert_eq!(result, HandleKeyResult::consumed());
    assert!(!which_key.is_pending());
    assert!(!which_key.active);
}

#[test]
fn handle_key_invalid_key_dismisses() {
    let mut which_key = WhichKey::default();
    which_key.push_key(Key::Char('g'));
    let result = press(&mut which_key, KeyEvent::from(KeyCode::F(1)), empty_map);
    assert_eq!(result, HandleKeyResult::consumed());
    assert!(!which_key.is_pending());
}

#[test]
fn handle_key_branch_pushes_key() {
    let mut which_key = WhichKey::default();
    which_key.push_key(Key::Char('g'));
    let result = press(&mut which_key, KeyEvent::from(KeyCode::Char('s')), nested_map);
    assert_eq!(result, HandleKeyResult::consumed());
    assert_eq!(which_key.pending_keys, vec![Key::Char('g'), Key::Char('s')]);
    assert!(which_key.is_pending());
}

#[test]
fn handle_key_leaf_sets_pending_action() {
    let mut which_key = WhichKey::default();
    which_key.push_key(Key::Char('g'));
    let result = press(&mut which_key, KeyEvent::from(KeyCode::Char('m')), sequence_map);
    assert_eq!(result, HandleKeyResult::consumed());
    assert_eq!(which_key.pending_action, Some(TuiAction::LaunchMpv));
    assert!(!which_key.is_pending());
}

#[test]
fn handle_key_unknown_sequence_dismisses() {
    let mut which_key = WhichKey::default();
    which_key.push_key(Key::Char('g'));
    let result = press(&mut which_key, KeyEvent::from(KeyCode::Char('z')), sequence_map);
    assert_eq!(result, HandleKeyResult::consumed());
    assert!(!which_key.is_pending());
    assert!(which_key.pending_action.is_none());
}

#[test]
fn take_action_returns_and_clears_action() {
    let mut which_key = WhichKey { pending_action: Some(TuiAction::Quit), ..Default::default() };
    let action = which_key.take_action();
    assert_eq!(action, Some(TuiAction::Quit));
    assert!(which_key.pending_action.is_none());
}

#[test]
fn is_active_returns_true_when_active() {
    let which_key = WhichKey { active: true, ..Default::default() };
    assert!(which_key.is_active());
}

#[test]
fn is_active_returns_true_when_pending() {
    let mut which_key = WhichKey::default();
    which_key.push_key(Key::Char('g'));
    assert!(which_key.is_active());
}

#[test]
fn is_active_returns_false_when_not_active_or_pending() {
    let which_key = WhichKey::default();
    assert!(!which_key.is_active());
}

#[test]
fn push_then_pop_key_restores_pending_keys() {
    let mut which_key = WhichKey::default();
    which_key.push_key(Key::Char('g'));
    which_key.push_key(Key::Char('s'));
    assert!(which_key.pop_key());
    assert_eq!(which_key.pending_keys, vec![Key::Char('g')]);
}

#[test]
fn format_path_joins_keys_with_arrows() {
    let mut which_key = WhichKey::default();
    which_key.push_key(Key::Char('g'));
    which_key.push_key(Key::Enter);
    which_key.push_key(Key::Char('x'));
    assert_eq!(which_key.format_path(), "g > Enter > x");
}

#[test]
fn nested_sequence_completes_with_its_action() {
    let mut which_key = WhichKey::default();
    which_key.push_key(Key::Char('g'));
    press(&mut which_key, KeyEvent::from(KeyCode::Char('s')), nested_map);
    press(&mut which_key, KeyEvent::from(KeyCode::Char('f')), nested_map);
    assert_eq!(which_key.take_action(), Some(TuiAction::FuzzyNotes));
    assert!(!which_key.is_pending());
}
