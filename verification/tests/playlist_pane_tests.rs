use shownotes::domain::{ItemPath, PlaylistItem};
use shownotes::event::{Component, KeyCode, KeyEvent};
use shownotes::playlist_pane::PlaylistPane;

fn path(index: usize) -> ItemPath {
    ItemPath::File(format!("/tmp/shownotes-playlist/item{index}.mp4"))
}

fn item(index: usize) -> PlaylistItem {
    PlaylistItem {
        path: path(index),
        duration: None,
        alias: None,
        mime_type: None,
        is_virtual: false,
        playlist_count: 0,
        has_sources: true,
    }
}

fn item_with_alias(index: usize, alias: &str) -> PlaylistItem {
    PlaylistItem { alias: Some(alias.to_string()), ..item(index) }
}

fn items(count: usize) -> Vec<PlaylistItem> {
    (0..count).map(item).collect()
}

fn fruit_items() -> Vec<PlaylistItem> {
    vec![item_with_alias(0, "apple"), item_with_alias(1, "banana"), item_with_alias(2, "apricot")]
}

#[test]
fn playlist_pane_new_creates_empty_pane() {
    let pane = PlaylistPane::new();
    assert!(pane.items.is_empty());
    assert_eq!(pane.selected, 0);
}

#[test]
fn playlist_pane_move_up_decrements_selection() {
    let mut pane = PlaylistPane::new();
    pane.items = items(3);
    pane.selected = 1;
    pane.move_up();
    assert_eq!(pane.selected, 0);
}

#[test]
fn playlist_pane_move_up_stays_at_first_item() {
    let mut pane = PlaylistPane::new();
    pane.items = items(2);
    pane.selected = 0;
    pane.move_up();
    assert_eq!(pane.selected, 0);
}

#[test]
fn playlist_pane_move_down_increments_selection() {
    let mut pane = PlaylistPane::new();
    pane.items = items(3);
    pane.selected = 0;
    pane.move_down();
    assert_eq!(pane.selected, 1);
}

#[test]
fn playlist_pane_move_down_stays_at_last_item() {
    let mut pane = PlaylistPane::new();
    pane.items = items(2);
    pane.selected = 1;
    pane.move_down();
    assert_eq!(pane.selected, 1);
}

#[test]
fn playlist_pane_move_up_with_filter_navigates_filtered_list() {
    let mut pane = PlaylistPane::new();
    pane.items = fruit_items();
    pane.filter.applied = Some("ap".to_string());
    pane.selected = 1;
    pane.move_up();
    assert_eq!(pane.selected, 0);
}

#[test]
fn playlist_pane_move_down_with_filter_navigates_filtered_list() {
    let mut pane = PlaylistPane::new();
    pane.items = fruit_items();
    pane.filter.applied = Some("ap".to_string());
    pane.selected = 0;
    pane.move_down();
    assert_eq!(pane.selected, 1);
}

#[test]
fn reorder_up_swaps_with_previous_item() {
    let mut pane = PlaylistPane::new();
    pane.items = items(3);
    pane.selected = 1;
    pane.reorder_up();
    assert_eq!(pane.selected, 0);
    assert_eq!(pane.items[0].path, path(1));
    assert_eq!(pane.items[1].path, path(0));
}

#[test]
fn reorder_up_does_nothing_at_first_item() {
    let mut pane = PlaylistPane::new();
    pane.items = items(2);
    pane.selected = 0;
    pane.reorder_up();
    assert_eq!(pane.selected, 0);
    assert_eq!(pane.items[0].path, path(0));
}

#[test]
fn reorder_down_swaps_with_next_item() {
    let mut pane = PlaylistPane::new();
    pane.items = items(3);
    pane.selected = 0;
    pane.reorder_down();
    assert_eq!(pane.selected, 1);
    assert_eq!(pane.items[0].path, path(1));
    assert_eq!(pane.items[1].path, path(0));
}

#[test]
fn reorder_down_does_nothing_at_last_item() {
    let mut pane = PlaylistPane::new();
    pane.items = items(2);
    pane.selected = 1;
    pane.reorder_down();
    assert_eq!(pane.selected, 1);
    assert_eq!(pane.items[1].path, path(1));
}

#[test]
fn reorder_up_then_down_restores_the_order() {
    let mut pane = PlaylistPane::new();
    pane.items = items(4);
    pane.selected = 2;
    pane.reorder_up();
    pane.reorder_down();
    assert_eq!(pane.selected, 2);
    assert_eq!(pane.items, items(4));
}

#[test]
fn add_appends_new_item() {
    let mut pane = PlaylistPane::new();
    pane.add(item(0));
    assert_eq!(pane.items.len(), 1);
    assert_eq!(pane.items[0].path, path(0));
}

#[test]
fn add_prevents_duplicates() {
    let mut pane = PlaylistPane::new();
    pane.add(item(0));
    pane.add(item(0));
    assert_eq!(pane.items.len(), 1);
}

#[test]
fn add_allows_different_paths() {
    let mut pane = PlaylistPane::new();
    pane.add(item(0));
    pane.add(item(1));
    assert_eq!(pane.items.len(), 2);
}

#[test]
fn add_treats_a_url_and_a_file_with_the_same_text_as_different() {
    let mut pane = PlaylistPane::new();
    let text = "https://example.com/a".to_string();
    pane.add(PlaylistItem { path: ItemPath::File(text.clone()), ..item(0) });
    pane.add(PlaylistItem { path: ItemPath::Url(text), ..item(0) });
    assert_eq!(pane.items.len(), 2);
}

#[test]
fn playlist_pane_remove_deletes_selected_item() {
    let mut pane = PlaylistPane::new();
    pane.items = items(3);
    pane.selected = 1;
    pane.remove();
    assert_eq!(pane.items.len(), 2);
    assert_eq!(pane.items[0].path, path(0));
    assert_eq!(pane.items[1].path, path(2));
}

#[test]
fn playlist_pane_remove_adjusts_selection_when_at_end() {
    let mut pane = PlaylistPane::new();
    pane.items = items(2);
    pane.selected = 1;
    pane.remove();
    assert_eq!(pane.selected, 0);
}

#[test]
fn playlist_pane_remove_with_filter_removes_correct_item() {
    let mut pane = PlaylistPane::new();
    pane.items = fruit_items();
    pane.filter.applied = Some("ap".to_string());
    pane.selected = 1;
    pane.remove();
    assert_eq!(pane.items.len(), 2);
    assert!(!pane.items.iter().any(|i| i.path == path(2)));
}

#[test]
fn playlist_pane_selected_item_returns_current_selection() {
    let mut pane = PlaylistPane::new();
    pane.items = items(2);
    pane.selected = 1;
    assert_eq!(pane.selected_item().unwrap().path, path(1));
}

#[test]
fn playlist_pane_selected_item_returns_none_when_empty() {
    let pane = PlaylistPane::new();
    assert!(pane.selected_item().is_none());
}

#[test]
fn playlist_pane_selected_item_with_filter_returns_filtered_item() {
    let mut pane = PlaylistPane::new();
    pane.items = fruit_items();
    pane.filter.applied = Some("ap".to_string());
    pane.selected = 0;
    assert!(pane.selected_item().is_some());
}

#[test]
fn playlist_pane_selected_item_mut_allows_modification() {
    let mut pane = PlaylistPane::new();
    pane.items = vec![item(0)];
    if let Some(item) = pane.selected_item_mut() {
        item.alias = Some("My Alias".to_string());
    }
    assert_eq!(pane.items[0].alias, Some("My Alias".to_string()));
}

#[test]
fn paths_returns_all_paths() {
    let mut pane = PlaylistPane::new();
    pane.items = items(2);
    let paths = pane.paths();
    assert_eq!(paths.len(), 2);
    assert_eq!(*paths[0], path(0));
    assert_eq!(*paths[1], path(1));
}

#[test]
fn playlist_pane_get_filtered_returns_all_when_no_filter() {
    let mut pane = PlaylistPane::new();
    pane.items = items(2);
    assert_eq!(pane.get_filtered().len(), 2);
}

#[test]
fn playlist_pane_get_filtered_filters_by_pattern() {
    let mut pane = PlaylistPane::new();
    pane.items = vec![item_with_alias(0, "apple"), item_with_alias(1, "banana"), item_with_alias(2, "cherry")];
    pane.filter.applied = Some("an".to_string());
    assert_eq!(pane.get_filtered().len(), 1);
}

#[test]
fn default_creates_empty_pane() {
    let pane = PlaylistPane::default();
    assert!(pane.items.is_empty());
}

#[test]
fn playlist_pane_handle_key_delegates_to_filter_when_active() {
    let mut pane = PlaylistPane::new();
    pane.filter.start();
    pane.filter.push_char('t');
    let result = pane.handle_key(KeyEvent::from(KeyCode::Char('e')));
    assert!(result.is_consumed());
    assert_eq!(pane.filter.input(), "te");
}

#[test]
fn playlist_pane_handle_key_returns_ignored_for_unhandled() {
    let mut pane = PlaylistPane::new();
    pane.items = vec![item(0)];
    let result = pane.handle_key(KeyEvent::from(KeyCode::Char('x')));
    assert!(!result.is_consumed());
}
