use shownotes::domain::{Duration, ItemPath, PlaylistItem};
use shownotes::pane_view::{footer_text, item_missing, list_selection, row_selected, with_cursor};

fn item(path: ItemPath, is_virtual: bool) -> PlaylistItem {
    PlaylistItem {
        path,
        duration: None,
        alias: None,
        mime_type: None,
        is_virtual,
        playlist_count: 0,
        has_sources: true,
    }
}

#[test]
fn only_the_focused_selection_is_highlighted() {
    assert!(row_selected(2, 2, true, false));
    assert!(!row_selected(2, 2, false, false));
    assert!(!row_selected(2, 2, true, true));
    assert!(!row_selected(1, 2, true, false));
}

#[test]
fn list_selection_is_dropped_while_typing_or_out_of_range() {
    assert_eq!(list_selection(false, 3, 1), Some(1));
    assert_eq!(list_selection(true, 3, 1), None);
    assert_eq!(list_selection(false, 3, 3), None);
    assert_eq!(list_selection(false, 0, 0), None);
}

#[test]
fn missing_items_are_files_not_found() {
    let file = item(ItemPath::File("/m/a.mp4".to_string()), false);
    assert!(item_missing(&file, false));
    assert!(!item_missing(&file, true));
    let web = item(ItemPath::Url("https://x.example".to_string()), true);
    assert!(!item_missing(&web, false));
    let stray_url = item(ItemPath::Url("https://x.example".to_string()), false);
    assert!(item_missing(&stray_url, true));
}

#[test]
fn footer_shows_the_pattern_or_the_total() {
    assert_eq!(footer_text(true, "abc", Duration::from_secs(5)), "Filter: abc█");
    assert_eq!(footer_text(false, "abc", Duration::from_secs(3725)), "Total: [01:02:05]");
}

#[test]
fn text_fields_show_a_cursor() {
    assert_eq!(with_cursor("https://"), "https://█");
    assert_eq!(with_cursor(""), "█");
}
