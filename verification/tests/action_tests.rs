use shownotes::action::{fits, handle_load_playlist};
use shownotes::commands::playlist_file_paths;
use shownotes::action::{
    dispatch, handle_delete, handle_move_to_library, handle_move_to_playlist, handle_quit,
    handle_rename_submit, handle_save, resume, Command, CommandResult, Fork, Pending, Step,
};
use shownotes::domain::{ItemDisplayMode, ItemPath, Pane, PlaylistItem};
use shownotes::state::TuiState;
use shownotes::tui_action::{ShowNoteKind, TuiAction, TuiActionResponse};

fn file(name: &str) -> PlaylistItem {
    PlaylistItem {
        path: ItemPath::File(format!("/media/{name}")),
        duration: None,
        alias: None,
        mime_type: None,
        is_virtual: false,
        playlist_count: 0,
        has_sources: true,
    }
}

fn url(text: &str) -> PlaylistItem {
    PlaylistItem {
        path: ItemPath::Url(text.to_string()),
        duration: None,
        alias: None,
        mime_type: Some("url".to_string()),
        is_virtual: true,
        playlist_count: 0,
        has_sources: true,
    }
}

fn then_of(step: &Step) -> Pending {
    match step {
        Step::Run { then, .. } => then.clone(),
        other => panic!("expected a command to run, got {other:?}"),
    }
}

#[test]
fn save_runs_a_save_and_reports_success() {
    let mut state = TuiState::new();
    state.playlist_pane.items = vec![file("a.mp4")];
    let step = handle_save(&mut state);
    match &step {
        Step::Run { command: Command::PlaylistSave { playlist_items, library_items }, .. } => {
            assert_eq!(playlist_items, &vec![file("a.mp4")]);
            assert!(library_items.is_empty());
        },
        other => panic!("unexpected step {other:?}"),
    }
    let done = resume(&mut state, then_of(&step), Ok(CommandResult::PlaylistSaved));
    assert_eq!(done, Step::Done(TuiActionResponse::Continue));
    assert_eq!(state.status_bar.message(), Some("Playlist saved"));
}

#[test]
fn failed_save_shows_an_error() {
    let mut state = TuiState::new();
    let step = handle_save(&mut state);
    let done = resume(&mut state, then_of(&step), Err("disk full".to_string()));
    assert_eq!(done, Step::Done(TuiActionResponse::Continue));
    assert!(state.is_showing_error());
    assert_eq!(state.error_popup.message, "Failed to save: disk full");
}

#[test]
fn quit_saves_then_quits_even_when_the_save_fails() {
    let mut state = TuiState::new();
    let step = handle_quit(&mut state);
    let done = resume(&mut state, then_of(&step), Err("locked".to_string()));
    assert_eq!(done, Step::Done(TuiActionResponse::ShouldQuit));
}

#[test]
fn delete_refuses_a_file_entry() {
    let mut state = TuiState::new();
    state.library_pane.items = vec![file("a.mp4")];
    let step = handle_delete(&mut state);
    assert_eq!(step, Step::Done(TuiActionResponse::Continue));
    assert_eq!(state.library_pane.items.len(), 1);
    assert_eq!(state.status_bar.message(), Some("Only virtual entries (URLs) can be deleted."));
}

#[test]
fn delete_removes_a_url_entry_and_saves() {
    let mut state = TuiState::new();
    state.library_pane.items = vec![url("https://example.com/v")];
    let step = handle_delete(&mut state);
    assert!(state.library_pane.items.is_empty());
    let done = resume(&mut state, then_of(&step), Ok(CommandResult::PlaylistSaved));
    assert_eq!(done, Step::Done(TuiActionResponse::Continue));
    assert_eq!(state.status_bar.message(), Some("Virtual entry deleted"));
}

#[test]
fn move_to_playlist_moves_the_selected_library_item() {
    let mut state = TuiState::new();
    state.focused_pane = Pane::Library;
    state.library_pane.items = vec![file("a.mp4")];
    let step = handle_move_to_playlist(&mut state);
    assert_eq!(then_of(&step), Pending::MovedSave);
    assert!(state.library_pane.items.is_empty());
    assert_eq!(state.playlist_pane.items.len(), 1);
    assert_eq!(state.playlist_pane.items[0].path, file("a.mp4").path);
    assert_eq!(state.focused_pane, Pane::Playlist);
    assert!(state.needs_clear);
}

#[test]
fn move_to_playlist_does_not_list_a_path_twice() {
    let mut state = TuiState::new();
    state.playlist_pane.items = vec![file("a.mp4")];
    state.library_pane.items = vec![file("a.mp4"), file("b.mp4")];
    handle_move_to_playlist(&mut state);
    assert_eq!(state.playlist_pane.items.len(), 1);
    assert_eq!(state.library_pane.items.len(), 1);
}

#[test]
fn moved_save_failure_fails_the_action() {
    let mut state = TuiState::new();
    state.library_pane.items = vec![file("a.mp4")];
    let step = handle_move_to_playlist(&mut state);
    let done = resume(&mut state, then_of(&step), Err("no space".to_string()));
    assert!(matches!(done, Step::Failed(_)));
}

#[test]
fn move_to_library_checks_the_file_first() {
    let mut state = TuiState::new();
    state.playlist_pane.items = vec![file("b.mp4")];
    state.library_pane.items = vec![file("a.mp4"), file("c.mp4")];
    let step = handle_move_to_library(&mut state);
    match &step {
        Step::Run { command: Command::FileExists { path }, then: Pending::MoveToLibrary } => {
            assert_eq!(path, "/media/b.mp4");
        },
        other => panic!("unexpected step {other:?}"),
    }
    let next = resume(&mut state, Pending::MoveToLibrary, Ok(CommandResult::FileExists { exists: true }));
    assert_eq!(then_of(&next), Pending::MovedSave);
    let paths: Vec<ItemPath> = state.library_pane.items.iter().map(|i| i.path.clone()).collect();
    assert_eq!(paths, vec![file("a.mp4").path, file("b.mp4").path, file("c.mp4").path]);
    assert!(state.playlist_pane.items.is_empty());
    assert_eq!(state.focused_pane, Pane::Library);
}

#[test]
fn move_to_library_drops_a_missing_file() {
    let mut state = TuiState::new();
    state.playlist_pane.items = vec![file("gone.mp4"), file("b.mp4")];
    handle_move_to_library(&mut state);
    resume(&mut state, Pending::MoveToLibrary, Ok(CommandResult::FileExists { exists: false }));
    assert!(state.library_pane.items.is_empty());
    assert_eq!(state.playlist_pane.items, vec![file("b.mp4")]);
    assert_eq!(state.focused_pane, Pane::Playlist);
}

#[test]
fn move_to_library_moves_a_url_entry_without_checking() {
    let mut state = TuiState::new();
    state.playlist_pane.items = vec![url("https://example.com/v")];
    let step = handle_move_to_library(&mut state);
    assert_eq!(then_of(&step), Pending::MovedSave);
    assert_eq!(state.library_pane.items.len(), 1);
}

#[test]
fn rename_submit_stores_a_changed_alias_of_a_file() {
    let mut state = TuiState::new();
    state.playlist_pane.items = vec![file("a.mp4")];
    let step = handle_rename_submit(&mut state, "Intro".to_string());
    assert_eq!(state.playlist_pane.items[0].alias, Some("Intro".to_string()));
    match step {
        Step::Run { command: Command::AliasSet { path, alias }, then: Pending::AliasSet } => {
            assert_eq!(path, "/media/a.mp4");
            assert_eq!(alias, "Intro");
        },
        other => panic!("unexpected step {other:?}"),
    }
}

#[test]
fn rename_submit_with_the_same_alias_stores_nothing() {
    let mut state = TuiState::new();
    let mut it = file("a.mp4");
    it.alias = Some("Intro".to_string());
    state.playlist_pane.items = vec![it];
    let step = handle_rename_submit(&mut state, "Intro".to_string());
    assert_eq!(step, Step::Done(TuiActionResponse::Continue));
}

#[test]
fn url_submit_adds_the_entry_sorted_and_saves() {
    let mut state = TuiState::new();
    state.library_pane.items = vec![file("z.mp4")];
    let mut fork = Fork::new();
    let step = dispatch(&mut state, &mut fork, TuiAction::UrlSubmit("https://a.example".to_string()));
    match &step {
        Step::Run { command: Command::UrlAdd { url }, then: Pending::UrlAdd } => {
            assert_eq!(url, "https://a.example");
        },
        other => panic!("unexpected step {other:?}"),
    }
    let next = resume(&mut state, Pending::UrlAdd, Ok(CommandResult::UrlAdded { item: url("https://a.example") }));
    assert_eq!(then_of(&next), Pending::UrlSave);
    assert_eq!(state.library_pane.items[0].path, file("z.mp4").path);
    assert_eq!(state.library_pane.items[1].path, ItemPath::Url("https://a.example".to_string()));
    let done = resume(&mut state, Pending::UrlSave, Ok(CommandResult::PlaylistSaved));
    assert_eq!(done, Step::Done(TuiActionResponse::Continue));
    assert_eq!(state.status_bar.message(), Some("URL added to library"));
}

#[test]
fn url_add_failure_is_shown() {
    let mut state = TuiState::new();
    let done = resume(&mut state, Pending::UrlAdd, Err("bad url".to_string()));
    assert_eq!(done, Step::Done(TuiActionResponse::Continue));
    assert_eq!(state.error_popup.message, "Failed to add URL: bad url");
}

#[test]
fn launch_reports_the_opener_used() {
    let mut state = TuiState::new();
    state.playlist_pane.items = vec![file("a.mp4")];
    let mut fork = Fork::new();
    let step = dispatch(&mut state, &mut fork, TuiAction::LaunchFile);
    let done = resume(&mut state, then_of(&step), Ok(CommandResult::FileLaunched { used_default_opener: true }));
    assert_eq!(done, Step::Done(TuiActionResponse::Continue));
    assert_eq!(state.status_bar.message(), Some("Opening with default opener: /media/a.mp4"));
}

#[test]
fn launching_a_url_goes_through_the_launcher() {
    let mut state = TuiState::new();
    state.playlist_pane.items = vec![url("https://example.com/v")];
    let mut fork = Fork::new();
    let step = dispatch(&mut state, &mut fork, TuiAction::LaunchFile);
    match &step {
        Step::Run { command: Command::LaunchUrl { url }, .. } => assert_eq!(url, "https://example.com/v"),
        other => panic!("unexpected step {other:?}"),
    }
    resume(&mut state, then_of(&step), Ok(CommandResult::UrlLaunched));
    assert_eq!(state.status_bar.message(), Some("Opening URL: https://example.com/v"));
}

#[test]
fn mpv_spawn_reports_whether_it_was_running() {
    let mut state = TuiState::new();
    resume(&mut state, Pending::MpvSpawn, Ok(CommandResult::MpvSpawned { was_already_running: true }));
    assert_eq!(state.status_bar.message(), Some("MPV already running"));
    resume(&mut state, Pending::MpvSpawn, Ok(CommandResult::MpvSpawned { was_already_running: false }));
    assert_eq!(state.status_bar.message(), Some("MPV launched"));
}

#[test]
fn notes_and_show_notes_are_handed_to_the_fork() {
    let mut state = TuiState::new();
    state.playlist_pane.items = vec![file("a.mp4")];
    let mut fork = Fork::new();
    dispatch(&mut state, &mut fork, TuiAction::Notes);
    assert_eq!(fork.notes_path, Some(file("a.mp4").path));
    dispatch(&mut state, &mut fork, TuiAction::GenerateShowNotes(ShowNoteKind::Markdown));
    assert_eq!(fork.generate_notes, Some("markdown".to_string()));
    dispatch(&mut state, &mut fork, TuiAction::FuzzyNotes);
    assert!(fork.fuzzy_notes);
}

#[test]
fn display_mode_actions_switch_the_shown_text() {
    let mut state = TuiState::new();
    let mut fork = Fork::new();
    dispatch(&mut state, &mut fork, TuiAction::ShowPath);
    assert_eq!(state.display_mode, ItemDisplayMode::Path);
    dispatch(&mut state, &mut fork, TuiAction::ShowAlias);
    assert_eq!(state.display_mode, ItemDisplayMode::Alias);
}

#[test]
fn loading_is_left_to_the_application() {
    let mut state = TuiState::new();
    let mut fork = Fork::new();
    assert_eq!(dispatch(&mut state, &mut fork, TuiAction::LoadPlaylist), Step::External(TuiAction::LoadPlaylist));
}

#[test]
fn refresh_starts_the_analysis_in_the_background() {
    let mut state = TuiState::new();
    let mut fork = Fork::new();
    assert!(!state.is_refreshing());
    let step = dispatch(&mut state, &mut fork, TuiAction::Refresh);
    assert_eq!(step, Step::Spawn(Command::LibraryAnalyze));
    assert!(state.is_refreshing());
    assert_eq!(state.status_bar.message(), Some("Refreshing library..."));
}

#[test]
fn refresh_while_one_runs_only_reports_it() {
    let mut state = TuiState::new();
    let mut fork = Fork::new();
    dispatch(&mut state, &mut fork, TuiAction::Refresh);
    let step = dispatch(&mut state, &mut fork, TuiAction::Refresh);
    assert_eq!(step, Step::Done(TuiActionResponse::Continue));
    assert!(state.is_refreshing());
    assert_eq!(state.status_bar.message(), Some("Refresh already in progress..."));
}

#[test]
fn refresh_may_start_again_once_finished() {
    let mut state = TuiState::new();
    let mut fork = Fork::new();
    dispatch(&mut state, &mut fork, TuiAction::Refresh);
    state.finish_refresh();
    assert!(!state.is_refreshing());
    let step = dispatch(&mut state, &mut fork, TuiAction::Refresh);
    assert_eq!(step, Step::Spawn(Command::LibraryAnalyze));
    assert_eq!(state.status_bar.message(), Some("Refreshing library..."));
}

#[test]
fn reorder_is_refused_while_a_filter_is_applied() {
    let mut state = TuiState::new();
    state.playlist_pane.items = vec![file("a.mp4"), file("b.mp4")];
    state.playlist_pane.selected = 1;
    state.playlist_pane.filter.applied = Some("a".to_string());
    let mut fork = Fork::new();
    dispatch(&mut state, &mut fork, TuiAction::ReorderUp);
    assert_eq!(state.playlist_pane.items, vec![file("a.mp4"), file("b.mp4")]);
}

#[test]
fn fits_accepts_only_results_the_command_can_give() {
    assert!(fits(&Pending::SaveThen { quit: false }, &Ok(CommandResult::PlaylistSaved)));
    assert!(!fits(&Pending::SaveThen { quit: false }, &Ok(CommandResult::MpvToggledPlay)));
    assert!(fits(&Pending::MpvSpawn, &Err("boom".to_string())));
    assert!(!fits(&Pending::MoveToLibrary, &Ok(CommandResult::AliasSet)));
}

#[test]
fn loading_into_mpv_needs_media_files() {
    let mut state = TuiState::new();
    let step = handle_load_playlist(&mut state, vec![]);
    assert_eq!(step, Step::Done(TuiActionResponse::Continue));
    assert_eq!(state.error_popup.message, "No video or audio files in playlist");
}

#[test]
fn loading_into_mpv_reports_the_count() {
    let mut state = TuiState::new();
    state.playlist_pane.items = vec![file("a.mp4"), url("https://x.example"), file("b.mp3")];
    let paths = playlist_file_paths(&state);
    assert_eq!(paths, vec!["/media/a.mp4".to_string(), "/media/b.mp3".to_string()]);
    let step = handle_load_playlist(&mut state, paths.clone());
    assert_eq!(step, Step::Run { command: Command::MpvLoadPlaylist { paths }, then: Pending::MpvLoad });
    resume(&mut state, Pending::MpvLoad, Ok(CommandResult::MpvPlaylistLoaded { count: 12 }));
    assert_eq!(state.status_bar.message(), Some("Loaded 12 items into mpv"));
    resume(&mut state, Pending::MpvLoad, Err("no socket".to_string()));
    assert_eq!(state.error_popup.message, "Failed to load playlist in mpv: no socket");
}
