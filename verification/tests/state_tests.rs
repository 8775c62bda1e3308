use shownotes::action::{dispatch, Fork, Step};
use shownotes::commands::set_initial_focus;
use shownotes::domain::{Duration, ItemPath, Pane, PlaylistItem};
use shownotes::event::{HandleKeyResult, KeyCode, KeyEvent};
use shownotes::state::TuiState;
use shownotes::tui_action::{TuiAction, TuiActionResponse};
use shownotes::which_key::KeyNode;

fn item(path: &str) -> PlaylistItem {
    PlaylistItem {
        path: ItemPath::File(path.to_string()),
        duration: None,
        alias: None,
        mime_type: None,
        is_virtual: false,
        playlist_count: 0,
        has_sources: true,
    }
}

/// Passes a key to the components and, when none takes it, to the global handler
/// with the key map's answers for it.
fn handle_key(
    state: &mut TuiState,
    code: KeyCode,
    is_prefix: bool,
    action: Option<TuiAction>,
) -> HandleKeyResult {
    let result = state.handle_component_key(KeyEvent::from(code));
    if result.is_consumed() {
        return result;
    }
    let node: Option<KeyNode> = None;
    state.global_handler.handle_key_with_lookups(code, node, is_prefix, action)
}

#[test]
fn new_creates_default_state() {
    let state = TuiState::new();
    assert!(state.playlist_pane.items.is_empty());
    assert!(state.library_pane.items.is_empty());
    assert_eq!(state.focused_pane, Pane::Playlist);
    assert!(state.status_bar.message().is_none());
    assert!(!state.is_renaming());
    assert!(!state.is_showing_error());
}

#[test]
fn selected_playlist_item_returns_current() {
    let mut state = TuiState::new();
    state.playlist_pane.items = vec![item("a.mp4"), item("b.mp4")];
    state.playlist_pane.selected = 1;
    assert_eq!(state.selected_playlist_item().unwrap().path, ItemPath::File("b.mp4".to_string()));
}

#[test]
fn selected_library_item_returns_current() {
    let mut state = TuiState::new();
    state.library_pane.items = vec![item("a.mp4"), item("b.mp4")];
    state.library_pane.selected = 1;
    assert_eq!(state.selected_library_item().unwrap().path, ItemPath::File("b.mp4".to_string()));
}

#[test]
fn move_playlist_up_delegates_to_pane() {
    let mut state = TuiState::new();
    state.playlist_pane.items = vec![item("a.mp4"), item("b.mp4")];
    state.playlist_pane.selected = 1;
    state.move_playlist_up();
    assert_eq!(state.playlist_pane.selected, 0);
}

#[test]
fn move_playlist_down_delegates_to_pane() {
    let mut state = TuiState::new();
    state.playlist_pane.items = vec![item("a.mp4"), item("b.mp4")];
    state.playlist_pane.selected = 0;
    state.move_playlist_down();
    assert_eq!(state.playlist_pane.selected, 1);
}

#[test]
fn move_library_up_delegates_to_pane() {
    let mut state = TuiState::new();
    state.library_pane.items = vec![item("a.mp4"), item("b.mp4")];
    state.library_pane.selected = 1;
    state.move_library_up();
    assert_eq!(state.library_pane.selected, 0);
}

#[test]
fn move_library_down_delegates_to_pane() {
    let mut state = TuiState::new();
    state.library_pane.items = vec![item("a.mp4"), item("b.mp4")];
    state.library_pane.selected = 0;
    state.move_library_down();
    assert_eq!(state.library_pane.selected, 1);
}

#[test]
fn reorder_playlist_up_delegates_to_pane() {
    let mut state = TuiState::new();
    state.playlist_pane.items = vec![item("a.mp4"), item("b.mp4")];
    state.playlist_pane.selected = 1;
    state.reorder_playlist_up();
    assert_eq!(state.playlist_pane.items[0].path, ItemPath::File("b.mp4".to_string()));
}

#[test]
fn reorder_playlist_down_delegates_to_pane() {
    let mut state = TuiState::new();
    state.playlist_pane.items = vec![item("a.mp4"), item("b.mp4")];
    state.playlist_pane.selected = 0;
    state.reorder_playlist_down();
    assert_eq!(state.playlist_pane.items[0].path, ItemPath::File("b.mp4".to_string()));
}

#[test]
fn add_to_playlist_adds_item() {
    let mut state = TuiState::new();
    state.add_to_playlist(
        ItemPath::File("test.mp4".to_string()),
        Some(Duration::from_secs(120)),
        Some("alias".to_string()),
        Some("video/mp4".to_string()),
        false,
    );
    assert_eq!(state.playlist_pane.items.len(), 1);
    assert_eq!(state.playlist_pane.items[0].path, ItemPath::File("test.mp4".to_string()));
    assert_eq!(state.playlist_pane.items[0].alias, Some("alias".to_string()));
}

#[test]
fn remove_from_playlist_removes_item() {
    let mut state = TuiState::new();
    state.playlist_pane.items = vec![item("a.mp4"), item("b.mp4")];
    state.playlist_pane.selected = 0;
    state.remove_from_playlist();
    assert_eq!(state.playlist_pane.items.len(), 1);
}

#[test]
fn remove_from_library_removes_item() {
    let mut state = TuiState::new();
    state.library_pane.items = vec![item("apple.mp4"), item("banana.mp4")];
    state.library_pane.filter.applied = Some("an".to_string());
    let filtered = state.get_filtered_library();
    assert_eq!(filtered.len(), 1);
}

#[test]
fn default_creates_default_state() {
    let state = TuiState::default();
    assert_eq!(state.focused_pane, Pane::Playlist);
}

#[test]
fn handle_key_error_popup_blocks_everything() {
    let mut state = TuiState::new();
    state.error_popup.show("Error message".to_string());
    let result = handle_key(&mut state, KeyCode::Char('a'), false, None);
    assert!(result.is_consumed());
    assert!(!state.error_popup.is_active());
}

#[test]
fn handle_key_rename_consumes_when_active() {
    let mut state = TuiState::new();
    state.rename.start(Some("old name"));
    let result = handle_key(&mut state, KeyCode::Char('x'), false, None);
    assert!(result.is_consumed());
    assert!(state.rename.input().contains('x'));
}

#[test]
fn handle_key_url_input_consumes_when_active() {
    let mut state = TuiState::new();
    state.url_input.start();
    let result = handle_key(&mut state, KeyCode::Char('h'), false, None);
    assert!(result.is_consumed());
    assert!(state.url_input.input().contains('h'));
}

#[test]
fn handle_key_global_handler_consumes_prefix_key() {
    let mut state = TuiState::new();
    let result = handle_key(&mut state, KeyCode::Char('g'), true, None);
    assert!(result.is_consumed());
    assert!(state.global_handler.is_which_key_pending());
}

#[test]
fn handle_key_delegates_to_focused_pane() {
    let mut state = TuiState::new();
    state.playlist_pane.items = vec![item("a.mp4"), item("b.mp4")];
    state.focused_pane = Pane::Playlist;
    let result = handle_key(&mut state, KeyCode::Char('j'), false, Some(TuiAction::MoveDown));
    assert!(result.is_consumed());
    let mut fork = Fork::new();
    for action in result.actions {
        dispatch(&mut state, &mut fork, action);
    }
    assert_eq!(state.playlist_pane.selected, 1);
}

#[test]
fn handle_key_returns_ignored_when_no_component_handles() {
    let mut state = TuiState::new();
    let result = handle_key(&mut state, KeyCode::Char('z'), false, None);
    assert!(!result.is_consumed());
}

#[test]
fn handle_key_goes_to_the_focused_filter_first() {
    let mut state = TuiState::new();
    state.focused_pane = Pane::Library;
    state.start_filter();
    let result = handle_key(&mut state, KeyCode::Char('q'), false, Some(TuiAction::Quit));
    assert!(result.is_consumed());
    assert!(result.actions.is_empty());
    assert_eq!(state.library_pane.filter.input(), "q");
}

#[test]
fn switch_pane_skips_an_empty_pane() {
    let mut state = TuiState::new();
    state.playlist_pane.items = vec![item("a.mp4")];
    state.switch_pane();
    assert_eq!(state.focused_pane, Pane::Playlist);
    state.library_pane.items = vec![item("b.mp4")];
    state.switch_pane();
    assert_eq!(state.focused_pane, Pane::Library);
}

#[test]
fn refresh_library_leaves_out_playlist_paths() {
    let mut state = TuiState::new();
    state.playlist_pane.items = vec![item("b.mp4")];
    state.refresh_library(vec![item("a.mp4"), item("b.mp4"), item("c.mp4")]);
    let paths: Vec<ItemPath> = state.library_pane.items.iter().map(|i| i.path.clone()).collect();
    assert_eq!(paths, vec![ItemPath::File("a.mp4".to_string()), ItemPath::File("c.mp4".to_string())]);
}

#[test]
fn set_initial_focus_picks_the_only_pane_with_items() {
    let mut state = TuiState::new();
    state.library_pane.items = vec![item("a.mp4")];
    set_initial_focus(&mut state);
    assert_eq!(state.focused_pane, Pane::Library);

    let mut state = TuiState::new();
    state.focused_pane = Pane::Library;
    state.playlist_pane.items = vec![item("a.mp4")];
    set_initial_focus(&mut state);
    assert_eq!(state.focused_pane, Pane::Playlist);
}

#[test]
fn set_initial_focus_keeps_focus_when_both_or_neither_have_items() {
    let mut state = TuiState::new();
    state.focused_pane = Pane::Library;
    set_initial_focus(&mut state);
    assert_eq!(state.focused_pane, Pane::Library);

    state.playlist_pane.items = vec![item("a.mp4")];
    state.library_pane.items = vec![item("b.mp4")];
    set_initial_focus(&mut state);
    assert_eq!(state.focused_pane, Pane::Library);
}

#[test]
fn dispatch_move_down_continues() {
    let mut state = TuiState::new();
    state.library_pane.items = vec![item("a.mp4"), item("b.mp4")];
    state.focused_pane = Pane::Library;
    let mut fork = Fork::new();
    let step = dispatch(&mut state, &mut fork, TuiAction::MoveDown);
    assert_eq!(step, Step::Done(TuiActionResponse::Continue));
    assert_eq!(state.library_pane.selected, 1);
}

#[test]
fn refresh_keeps_panes_without_shared_paths() {
    let mut state = TuiState::new();
    state.playlist_pane.items = vec![item("b.mp4"), item("d.mp4")];
    state.library_pane.items = vec![item("a.mp4"), item("c.mp4")];
    state.refresh_library(vec![item("d.mp4"), item("c.mp4"), item("b.mp4"), item("e.mp4")]);
    for lib in &state.library_pane.items {
        assert!(state.playlist_pane.items.iter().all(|p| p.path != lib.path));
    }
    let paths: Vec<ItemPath> = state.library_pane.items.iter().map(|i| i.path.clone()).collect();
    assert_eq!(paths, vec![ItemPath::File("c.mp4".to_string()), ItemPath::File("e.mp4".to_string())]);
}
