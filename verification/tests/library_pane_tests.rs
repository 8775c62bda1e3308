use shownotes::domain::{ItemPath, PlaylistItem};
use shownotes::event::{Component, KeyCode, KeyEvent};
use shownotes::library_pane::LibraryPane;

fn path(index: usize) -> ItemPath {
    ItemPath::File(format!("/tmp/shownotes-library/item{index}.mp4"))
}

fn file_item(index: usize) -> PlaylistItem {
    PlaylistItem {
        path: path(index),
        duration: None,
        alias: None,
        mime_type: None,
        is_virtual: false,
        playlist_count: 0,
        has_sources: true,
    }
}

fn items(count: usize) -> Vec<PlaylistItem> {
    (0..count).map(file_item).collect()
}

fn virtual_item(url: &str) -> PlaylistItem {
    PlaylistItem {
        path: ItemPath::Url(url.to_string()),
        duration: None,
        alias: None,
        mime_type: None,
        is_virtual: true,
        playlist_count: 0,
        has_sources: true,
    }
}

fn fruit_pane() -> LibraryPane {
    let mut pane = LibraryPane::new();
    pane.items = items(3);
    pane.items[0].alias = Some("apple".to_string());
    pane.items[1].alias = Some("banana".to_string());
    pane.items[2].alias = Some("grape".to_string());
    pane
}

#[test]
fn library_pane_new_creates_empty_pane() {
    let pane = LibraryPane::new();
    assert!(pane.items.is_empty());
    assert_eq!(pane.selected, 0);
}

#[test]
fn library_pane_move_up_decrements_selection() {
    let mut pane = LibraryPane::new();
    pane.items = items(3);
    pane.selected = 1;
    pane.move_up();
    assert_eq!(pane.selected, 0);
}

#[test]
fn library_pane_move_up_stays_at_first_item() {
    let mut pane = LibraryPane::new();
    pane.items = items(2);
    pane.selected = 0;
    pane.move_up();
    assert_eq!(pane.selected, 0);
}

#[test]
fn library_pane_move_down_increments_selection() {
    let mut pane = LibraryPane::new();
    pane.items = items(3);
    pane.selected = 0;
    pane.move_down();
    assert_eq!(pane.selected, 1);
}

#[test]
fn library_pane_move_down_stays_at_last_item() {
    let mut pane = LibraryPane::new();
    pane.items = items(2);
    pane.selected = 1;
    pane.move_down();
    assert_eq!(pane.selected, 1);
}

#[test]
fn library_pane_move_up_with_filter_navigates_filtered_list() {
    let mut pane = fruit_pane();
    pane.filter.applied = Some("ap".to_string());
    pane.selected = 1;
    pane.move_up();
    assert_eq!(pane.selected, 0);
}

#[test]
fn library_pane_move_down_with_filter_navigates_filtered_list() {
    let mut pane = fruit_pane();
    pane.filter.applied = Some("ap".to_string());
    pane.selected = 0;
    pane.move_down();
    assert_eq!(pane.selected, 1);
}

#[test]
fn library_pane_move_down_with_filter_stays_on_last_shown_row() {
    let mut pane = fruit_pane();
    pane.filter.applied = Some("ap".to_string());
    pane.selected = 1;
    pane.move_down();
    assert_eq!(pane.selected, 1);
}

#[test]
fn library_pane_remove_deletes_selected_item() {
    let mut pane = LibraryPane::new();
    pane.items = items(3);
    pane.selected = 1;
    pane.remove();
    assert_eq!(pane.items.len(), 2);
    assert_eq!(pane.items[0].path, path(0));
    assert_eq!(pane.items[1].path, path(2));
}

#[test]
fn library_pane_remove_adjusts_selection_when_at_end() {
    let mut pane = LibraryPane::new();
    pane.items = items(2);
    pane.selected = 1;
    pane.remove();
    assert_eq!(pane.selected, 0);
}

#[test]
fn library_pane_remove_with_filter_removes_correct_item() {
    let mut pane = fruit_pane();
    pane.filter.applied = Some("ap".to_string());
    pane.selected = 1;
    pane.remove();
    assert_eq!(pane.items.len(), 2);
    let removed_path = path(2);
    assert!(pane.items.iter().all(|i| i.path != removed_path));
}

#[test]
fn library_pane_remove_on_empty_pane_does_nothing() {
    let mut pane = LibraryPane::new();
    pane.remove();
    assert!(pane.items.is_empty());
    assert_eq!(pane.selected, 0);
}

#[test]
fn library_pane_selected_item_returns_current_selection() {
    let mut pane = LibraryPane::new();
    pane.items = items(2);
    pane.selected = 1;
    assert_eq!(pane.selected_item().unwrap().path, path(1));
}

#[test]
fn library_pane_selected_item_returns_none_when_empty() {
    let pane = LibraryPane::new();
    assert!(pane.selected_item().is_none());
}

#[test]
fn library_pane_selected_item_with_filter_returns_filtered_item() {
    let mut pane = fruit_pane();
    pane.filter.applied = Some("ap".to_string());
    pane.selected = 0;
    assert!(pane.selected_item().is_some());
}

#[test]
fn library_pane_selected_item_mut_allows_modification() {
    let mut pane = LibraryPane::new();
    pane.items = items(1);
    if let Some(item) = pane.selected_item_mut() {
        item.alias = Some("My Alias".to_string());
    }
    assert_eq!(pane.items[0].alias, Some("My Alias".to_string()));
}

#[test]
fn refresh_resets_selection_when_empty() {
    let mut pane = LibraryPane::new();
    pane.selected = 5;
    pane.refresh(vec![], &[]);
    assert_eq!(pane.selected, 0);
}

#[test]
fn refresh_adjusts_selection_when_out_of_bounds() {
    let mut pane = LibraryPane::new();
    pane.selected = 10;
    pane.refresh(items(2), &[]);
    assert_eq!(pane.selected, 1);
}

#[test]
fn refresh_keeps_selection_when_valid() {
    let mut pane = LibraryPane::new();
    pane.selected = 1;
    pane.refresh(items(3), &[]);
    assert_eq!(pane.selected, 1);
}

#[test]
fn library_pane_get_filtered_returns_all_when_no_filter() {
    let mut pane = LibraryPane::new();
    pane.items = items(2);
    assert_eq!(pane.get_filtered().len(), 2);
}

#[test]
fn library_pane_get_filtered_filters_by_pattern() {
    let mut pane = fruit_pane();
    pane.filter.applied = Some("an".to_string());
    let filtered = pane.get_filtered();
    assert_eq!(filtered.len(), 1);
    assert_eq!(filtered[0].1.path, path(1));
}

#[test]
fn refresh_filters_out_playlist_items() {
    let mut pane = LibraryPane::new();
    let b_path = path(1);
    let playlist_paths: Vec<&ItemPath> = vec![&b_path];
    pane.refresh(items(3), &playlist_paths);
    assert_eq!(pane.items.len(), 2);
    assert!(pane.items.iter().all(|i| i.path != b_path));
}

#[test]
fn refresh_preserves_virtual_items() {
    let mut pane = LibraryPane::new();
    pane.items = vec![virtual_item("https://example.com/video.mp4"), file_item(0)];
    let new_item = file_item(1);
    pane.refresh(vec![new_item.clone()], &[]);
    assert_eq!(pane.items.len(), 2);
    assert!(pane
        .items
        .iter()
        .any(|i| i.path == ItemPath::Url("https://example.com/video.mp4".to_string()) && i.is_virtual));
    assert!(pane.items.iter().any(|i| i.path == new_item.path));
    assert!(!pane.items.iter().any(|i| i.path == path(0)));
}

#[test]
fn refresh_preserves_virtual_items_not_in_disk_entries() {
    let mut pane = LibraryPane::new();
    pane.items = vec![virtual_item("https://youtube.com/watch?v=abc")];
    pane.refresh(vec![], &[]);
    assert_eq!(pane.items.len(), 1);
    assert_eq!(pane.items[0].path, ItemPath::Url("https://youtube.com/watch?v=abc".to_string()));
    assert!(pane.items[0].is_virtual);
}

#[test]
fn refresh_sorts_by_path_and_does_not_list_a_kept_file_twice() {
    let mut pane = LibraryPane::new();
    pane.items = vec![file_item(2)];
    pane.refresh(vec![file_item(2), file_item(0), file_item(1)], &[]);
    let paths: Vec<ItemPath> = pane.items.iter().map(|i| i.path.clone()).collect();
    assert_eq!(paths, vec![path(0), path(1), path(2)]);
}

#[test]
fn library_pane_handle_key_delegates_to_filter_when_active() {
    let mut pane = LibraryPane::new();
    pane.filter.start();
    let result = pane.handle_key(KeyEvent::from(KeyCode::Char('x')));
    assert!(result.is_consumed());
    assert_eq!(pane.filter.input(), "x");
}

#[test]
fn library_pane_handle_key_returns_ignored_for_unhandled() {
    let mut pane = LibraryPane::new();
    let result = pane.handle_key(KeyEvent::from(KeyCode::Char('x')));
    assert!(!result.is_consumed());
}
