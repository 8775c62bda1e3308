use shownotes::commands::load_playlist_into;
use shownotes::commands::{sources_query_paths, update_sources_status, Source};
use shownotes::domain::{ItemPath, PlaylistItem};
use shownotes::state::TuiState;

fn file(path: &str) -> PlaylistItem {
    PlaylistItem {
        path: ItemPath::File(path.to_string()),
        duration: None,
        alias: None,
        mime_type: None,
        is_virtual: false,
        playlist_count: 0,
        has_sources: true,
    }
}

fn url(text: &str) -> PlaylistItem {
    PlaylistItem { path: ItemPath::Url(text.to_string()), is_virtual: true, ..file("") }
}

fn source(id: i64) -> Source {
    Source { id, source_url: format!("https://ref.example/{id}"), label: None }
}

fn sample_state() -> TuiState {
    let mut state = TuiState::new();
    state.playlist_pane.items = vec![file("/m/a.mp4"), url("https://x.example")];
    state.library_pane.items = vec![file("/m/b.mp4"), file("/m/c.mp4")];
    state
}

#[test]
fn query_lists_file_paths_playlist_first() {
    let state = sample_state();
    assert_eq!(sources_query_paths(&state), vec!["/m/a.mp4".to_string(), "/m/b.mp4".to_string(), "/m/c.mp4".to_string()]);
}

#[test]
fn files_with_sources_are_marked_and_others_unmarked() {
    let mut state = sample_state();
    let answer = vec![("/m/a.mp4".to_string(), vec![source(1), source(2)]), ("/m/b.mp4".to_string(), vec![])];
    update_sources_status(&mut state, &answer);
    assert!(state.playlist_pane.items[0].has_sources);
    assert!(state.playlist_pane.items[1].has_sources);
    assert!(!state.library_pane.items[0].has_sources);
    assert!(!state.library_pane.items[1].has_sources);
}

#[test]
fn an_empty_answer_marks_no_file() {
    let mut state = sample_state();
    update_sources_status(&mut state, &[]);
    assert!(!state.playlist_pane.items[0].has_sources);
    assert!(state.playlist_pane.items[1].has_sources);
    assert_eq!(state.library_pane.items.len(), 2);
}

#[test]
fn loading_a_playlist_refreshes_and_sorts_the_library() {
    let mut state = TuiState::new();
    state.library_pane.items = vec![file("/m/old.mp4")];
    load_playlist_into(
        &mut state,
        vec![file("/m/b.mp4")],
        Some(vec![file("/m/c.mp4"), file("/m/b.mp4"), file("/m/a.mp4")]),
        vec![url("https://x.example")],
    );
    assert_eq!(state.playlist_pane.items, vec![file("/m/b.mp4")]);
    let paths: Vec<ItemPath> = state.library_pane.items.iter().map(|i| i.path.clone()).collect();
    assert_eq!(
        paths,
        vec![
            ItemPath::File("/m/a.mp4".to_string()),
            ItemPath::File("/m/c.mp4".to_string()),
            ItemPath::Url("https://x.example".to_string()),
        ]
    );
}

#[test]
fn loading_without_a_listing_keeps_the_library_items() {
    let mut state = TuiState::new();
    state.library_pane.items = vec![file("/m/z.mp4")];
    load_playlist_into(&mut state, vec![], None, vec![url("https://a.example")]);
    assert_eq!(state.library_pane.items.len(), 2);
    assert_eq!(state.library_pane.items[0].path, ItemPath::File("/m/z.mp4".to_string()));
}

#[test]
fn loading_a_playlist_clamps_the_library_selection_to_the_refreshed_items() {
    let mut state = TuiState::new();
    state.library_pane.items = vec![file("/m/a.mp4"), file("/m/c.mp4"), file("/m/d.mp4")];
    state.library_pane.selected = 2;
    state.needs_clear = true;
    load_playlist_into(&mut state, vec![file("/m/b.mp4")], Some(vec![file("/m/a.mp4"), file("/m/b.mp4")]), vec![]);
    assert_eq!(state.library_pane.selected, 0);
    assert!(state.needs_clear);
    assert!(!state.is_refreshing());
}

#[test]
fn loading_without_a_listing_keeps_the_library_selection() {
    let mut state = TuiState::new();
    state.library_pane.items = vec![file("/m/a.mp4"), file("/m/b.mp4")];
    state.library_pane.selected = 1;
    load_playlist_into(&mut state, vec![], None, vec![url("https://a.example")]);
    assert_eq!(state.library_pane.selected, 1);
}
