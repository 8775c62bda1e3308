//! Handling actions: the decisions, as steps that ask the application to run a
//! command and continue with its outcome.
use vstd::prelude::*;
use crate::common::selected_index;
use crate::domain::{ItemDisplayMode, ItemPath, Pane, PlaylistItem, duplicate_items, sort_by_path, sorted_by_path};
use crate::library_pane::{LibraryPane, has_path};
use crate::playlist_pane::PlaylistPane;
use crate::state::{
    TuiState, focused_selection, library_selection, new_item, other_pane, pane_filter, pane_len,
    playlist_selection, with_pane_filter,
};
use crate::text::{decimal, owned, push_decimal};
use crate::tui_action::{ShowNoteKind, TuiAction, TuiActionResponse};

verus! {

/// What [`handle_save`] does.
pub open spec fn save_done(before: TuiState, after: TuiState, r: Step) -> bool {
    &&& after == before
    &&& saves(r, before, Pending::SaveThen { quit: false })
}

/// What [`handle_quit`] does.
pub open spec fn quit_done(before: TuiState, after: TuiState, r: Step) -> bool {
    &&& after == before
    &&& saves(r, before, Pending::SaveThen { quit: true })
}

/// What [`handle_refresh`] does: one refresh at a time; a new one starts the library
/// analysis in the background.
pub open spec fn refresh_done(before: TuiState, after: TuiState, r: Step) -> bool {
    if before.refreshing {
        &&& after == (TuiState { status_bar: after.status_bar, ..before })
        &&& after.status_bar.shown() == Some("Refresh already in progress..."@)
        &&& r == Step::Done(TuiActionResponse::Continue)
    } else {
        &&& after == (TuiState { status_bar: after.status_bar, refreshing: true, ..before })
        &&& after.status_bar.shown() == Some("Refreshing library..."@)
        &&& r == Step::Spawn(Command::LibraryAnalyze)
    }
}

/// What [`handle_show_help`] does.
pub open spec fn show_help_done(before: TuiState, after: TuiState, r: TuiActionResponse) -> bool {
    &&& r == TuiActionResponse::Continue
    &&& after == (TuiState { global_handler: after.global_handler, ..before })
    &&& after.global_handler.help().active == !before.global_handler.help().active
    &&& after.global_handler.help().pending_keys == before.global_handler.help().pending_keys
    &&& after.global_handler.help().pending_action == before.global_handler.help().pending_action
}

/// What [`handle_start_filter`] does.
pub open spec fn start_filter_done(before: TuiState, after: TuiState, r: TuiActionResponse) -> bool {
    &&& r == TuiActionResponse::Continue
    &&& after == with_pane_filter(before, before.focused_pane, pane_filter(after, before.focused_pane))
    &&& pane_filter(after, before.focused_pane).active
    &&& pane_filter(after, before.focused_pane).input@.len() == 0
    &&& pane_filter(after, before.focused_pane).applied is None
    &&& pane_filter(after, before.focused_pane).previous
                == pane_filter(before, before.focused_pane).applied
}

/// What [`handle_show_alias`] does.
pub open spec fn show_alias_done(before: TuiState, after: TuiState, r: TuiActionResponse) -> bool {
    &&& r == TuiActionResponse::Continue
    &&& after == (TuiState { display_mode: ItemDisplayMode::Alias, ..before })
}

/// What [`handle_show_path`] does.
pub open spec fn show_path_done(before: TuiState, after: TuiState, r: TuiActionResponse) -> bool {
    &&& r == TuiActionResponse::Continue
    &&& after == (TuiState { display_mode: ItemDisplayMode::Path, ..before })
}

/// What [`handle_add_url`] does.
pub open spec fn add_url_done(before: TuiState, after: TuiState, r: TuiActionResponse) -> bool {
    &&& r == TuiActionResponse::Continue
    &&& after == (TuiState { url_input: after.url_input, ..before })
    &&& after.url_input.active
    &&& after.url_input.input@.len() == 0
}

/// What [`handle_url_submit`] does.
pub open spec fn url_submit_done(before: TuiState, after: TuiState, url: String, r: Step) -> bool {
    &&& after == before
    &&& r == (Step::Run { command: Command::UrlAdd { url }, then: Pending::UrlAdd })
}

/// What [`handle_delete`] does.
pub open spec fn delete_done(before: TuiState, after: TuiState, r: Step) -> bool {
    &&& match library_selection(before) {
                None => after == before && r == Step::Done(TuiActionResponse::Continue),
                Some(it) => if it.is_virtual {
                    &&& after == (TuiState { library_pane: after.library_pane, ..before })
                    &&& after.library_pane.filter == before.library_pane.filter
                    &&& after.library_pane.items@ == before.library_pane.items@.remove(
                        selected_index(before.library_pane.items@, before.library_pane.filter,
                            before.library_pane.selected as nat)->0)
                    &&& after.library_pane.selected as nat == crate::common::clamped_selection(
                        before.library_pane.selected as nat, (before.library_pane.items@.len() - 1) as nat)
                    &&& saves(r, after, Pending::DeleteSave)
                } else {
                    &&& after == (TuiState { status_bar: after.status_bar, ..before })
                    &&& after.status_bar.shown() == Some("Only virtual entries (URLs) can be deleted."@)
                    &&& r == Step::Done(TuiActionResponse::Continue)
                },
            }
}

/// What [`handle_move_up`] does.
pub open spec fn move_up_done(before: TuiState, after: TuiState, r: TuiActionResponse) -> bool {
    &&& r == TuiActionResponse::Continue
    &&& before.focused_pane == Pane::Playlist ==> after == (TuiState { playlist_pane: PlaylistPane {
                selected: crate::common::selection_after_up(before.playlist_pane.items@, before.playlist_pane.filter,
                    before.playlist_pane.selected as nat) as usize,
                ..before.playlist_pane }, ..before })
    &&& before.focused_pane == Pane::Library ==> after == (TuiState { library_pane: LibraryPane {
                selected: crate::common::selection_after_up(before.library_pane.items@, before.library_pane.filter,
                    before.library_pane.selected as nat) as usize,
                ..before.library_pane }, ..before })
}

/// What [`handle_move_down`] does.
pub open spec fn move_down_done(before: TuiState, after: TuiState, r: TuiActionResponse) -> bool {
    &&& r == TuiActionResponse::Continue
    &&& before.focused_pane == Pane::Playlist ==> after == (TuiState { playlist_pane: PlaylistPane {
                selected: crate::common::selection_after_down(before.playlist_pane.items@, before.playlist_pane.filter,
                    before.playlist_pane.selected as nat) as usize,
                ..before.playlist_pane }, ..before })
    &&& before.focused_pane == Pane::Library ==> after == (TuiState { library_pane: LibraryPane {
                selected: crate::common::selection_after_down(before.library_pane.items@, before.library_pane.filter,
                    before.library_pane.selected as nat) as usize,
                ..before.library_pane }, ..before })
}

/// What [`handle_switch_pane`] does.
pub open spec fn switch_pane_done(before: TuiState, after: TuiState, r: TuiActionResponse) -> bool {
    &&& r == TuiActionResponse::Continue
    &&& pane_len(before, other_pane(before.focused_pane)) > 0 ==> after == (TuiState {
                focused_pane: other_pane(before.focused_pane), ..before })
    &&& pane_len(before, other_pane(before.focused_pane)) == 0 ==> after == before
}

/// What [`handle_focus_playlist`] does.
pub open spec fn focus_playlist_done(before: TuiState, after: TuiState, r: TuiActionResponse) -> bool {
    &&& r == TuiActionResponse::Continue
    &&& before.playlist_pane.items@.len() > 0 ==> after == (TuiState {
                focused_pane: Pane::Playlist, ..before })
    &&& before.playlist_pane.items@.len() == 0 ==> after == before
}

/// What [`handle_focus_library`] does.
pub open spec fn focus_library_done(before: TuiState, after: TuiState, r: TuiActionResponse) -> bool {
    &&& r == TuiActionResponse::Continue
    &&& before.library_pane.items@.len() > 0 ==> after == (TuiState {
                focused_pane: Pane::Library, ..before })
    &&& before.library_pane.items@.len() == 0 ==> after == before
}

/// What [`handle_reorder_up`] does.
pub open spec fn reorder_up_done(before: TuiState, after: TuiState, r: Result<TuiActionResponse, TuiActionError>) -> bool {
    &&& r == Ok::<TuiActionResponse, TuiActionError>(TuiActionResponse::Continue)
    &&& before.playlist_pane.filter.applied is Some ==> after == before
    &&& before.playlist_pane.filter.applied is None ==> ({
                let s = before.playlist_pane.selected as int;
                let items = before.playlist_pane.items@;
                &&& after == (TuiState { playlist_pane: after.playlist_pane, needs_clear: true, ..before })
                &&& after.playlist_pane.filter == before.playlist_pane.filter
                &&& (s == 0 ==> after.playlist_pane == before.playlist_pane)
                &&& (s > 0 ==> after.playlist_pane.selected == s - 1
                    && after.playlist_pane.items@ == items.update(s, items[s - 1]).update(s - 1, items[s]))
            })
}

/// What [`handle_reorder_down`] does.
pub open spec fn reorder_down_done(before: TuiState, after: TuiState, r: Result<TuiActionResponse, TuiActionError>) -> bool {
    &&& r == Ok::<TuiActionResponse, TuiActionError>(TuiActionResponse::Continue)
    &&& before.playlist_pane.filter.applied is Some ==> after == before
    &&& before.playlist_pane.filter.applied is None ==> ({
                let s = before.playlist_pane.selected as int;
                let items = before.playlist_pane.items@;
                &&& after == (TuiState { playlist_pane: after.playlist_pane, needs_clear: true, ..before })
                &&& after.playlist_pane.filter == before.playlist_pane.filter
                &&& (!(s + 1 < items.len()) ==> after.playlist_pane == before.playlist_pane)
                &&& (s + 1 < items.len() ==> after.playlist_pane.selected == s + 1
                    && after.playlist_pane.items@ == items.update(s, items[s + 1]).update(s + 1, items[s]))
            })
}

/// What [`handle_move_to_library`] does.
pub open spec fn move_to_library_done(before: TuiState, after: TuiState, r: Step) -> bool {
    &&& match playlist_selection(before) {
                None => after == before && r == Step::Done(TuiActionResponse::Continue),
                Some(it) => if !it.is_virtual && !it.path@.0 {
                    after == before && (r matches Step::Run {
                        command: Command::FileExists { path },
                        then: Pending::MoveToLibrary,
                    } && path@ == it.path@.1)
                } else {
                    moved_to_library(before, after, it, !it.is_virtual) && saves(r, after, Pending::MovedSave)
                },
            }
}

/// What [`handle_move_to_playlist`] does.
pub open spec fn move_to_playlist_done(before: TuiState, after: TuiState, r: Step) -> bool {
    &&& match library_selection(before) {
                None => after == before && r == Step::Done(TuiActionResponse::Continue),
                Some(it) => {
                    let i = selected_index(before.library_pane.items@, before.library_pane.filter,
                        before.library_pane.selected as nat)->0;
                    let lib_items = before.library_pane.items@.remove(i);
                    let added = new_item(it.path, it.duration, it.alias, it.mime_type, it.is_virtual);
                    &&& after.playlist_pane.items@ == if has_path(before.playlist_pane.items@, it.path@) {
                        before.playlist_pane.items@
                    } else {
                        before.playlist_pane.items@.push(added)
                    }
                    &&& after.playlist_pane.selected == before.playlist_pane.selected
                    &&& after.playlist_pane.filter == before.playlist_pane.filter
                    &&& after.library_pane.items@ == lib_items
                    &&& after.library_pane.filter == before.library_pane.filter
                    &&& after.library_pane.selected as nat == crate::common::clamped_selection(
                        before.library_pane.selected as nat, lib_items.len())
                    &&& after.focused_pane == if lib_items.len() == 0 { Pane::Playlist } else { before.focused_pane }
                    &&& after.needs_clear
                    &&& after == (TuiState {
                        playlist_pane: after.playlist_pane,
                        library_pane: after.library_pane,
                        focused_pane: after.focused_pane,
                        needs_clear: true,
                        ..before })
                    &&& saves(r, after, Pending::MovedSave)
                },
            }
}

/// What [`handle_rename`] does.
pub open spec fn rename_done(before: TuiState, after: TuiState, r: TuiActionResponse) -> bool {
    &&& r == TuiActionResponse::Continue
    &&& after == (TuiState { rename: after.rename, ..before })
    &&& after.rename.active
    &&& after.rename.input@ == match focused_selection(before) {
                Some(it) => match it.alias {
                    Some(a) => a@,
                    None => Seq::<char>::empty(),
                },
                None => Seq::<char>::empty(),
            }
}

/// What [`handle_notes`] does.
pub open spec fn notes_done(before: TuiState, after: TuiState, fork_before: Fork, fork_after: Fork, r: TuiActionResponse) -> bool {
    &&& r == TuiActionResponse::Continue
    &&& after == before
    &&& match focused_selection(before) {
                Some(it) => fork_after == (Fork { notes_path: Some(it.path), ..fork_before }),
                None => fork_after == fork_before,
            }
}

/// What [`handle_fuzzy_notes`] does.
pub open spec fn fuzzy_notes_done(before: TuiState, after: TuiState, fork_before: Fork, fork_after: Fork, r: TuiActionResponse) -> bool {
    &&& r == TuiActionResponse::Continue
    &&& after == before
    &&& fork_after == (Fork { fuzzy_notes: true, ..fork_before })
}

/// What [`handle_edit_sources`] does.
pub open spec fn edit_sources_done(before: TuiState, after: TuiState, fork_before: Fork, fork_after: Fork, r: TuiActionResponse) -> bool {
    &&& r == TuiActionResponse::Continue
    &&& after == before
    &&& match focused_selection(before) {
                Some(it) => fork_after == (Fork { sources_path: Some(it.path), ..fork_before }),
                None => fork_after == fork_before,
            }
}

/// What [`handle_generate_show_notes`] does.
pub open spec fn generate_show_notes_done(before: TuiState, after: TuiState, fork_before: Fork, fork_after: Fork, kind: ShowNoteKind, r: TuiActionResponse) -> bool {
    &&& r == TuiActionResponse::Continue
    &&& after == before
    &&& fork_after == (Fork { generate_notes: fork_after.generate_notes, ..fork_before })
    &&& fork_after.generate_notes matches Some(g) && g@ == (if kind == ShowNoteKind::Html {
                "html"@
            } else {
                "markdown"@
            })
}

/// What [`handle_rename_submit`] does.
pub open spec fn rename_submit_done(before: TuiState, after: TuiState, alias: String, r: Step) -> bool {
    &&& match focused_selection(before) {
                None => after == before && r == Step::Done(TuiActionResponse::Continue),
                Some(it) => {
                    let renamed = PlaylistItem { alias: Some(alias), ..it };
                    &&& (before.focused_pane == Pane::Playlist ==> after == (TuiState {
                        playlist_pane: PlaylistPane { items: after.playlist_pane.items, ..before.playlist_pane },
                        ..before }) && after.playlist_pane.items@ == before.playlist_pane.items@.update(
                        selected_index(before.playlist_pane.items@, before.playlist_pane.filter,
                            before.playlist_pane.selected as nat)->0, renamed))
                    &&& (before.focused_pane == Pane::Library ==> after == (TuiState {
                        library_pane: LibraryPane { items: after.library_pane.items, ..before.library_pane },
                        ..before }) && after.library_pane.items@ == before.library_pane.items@.update(
                        selected_index(before.library_pane.items@, before.library_pane.filter,
                            before.library_pane.selected as nat)->0, renamed))
                    &&& if crate::common::opt_view(it.alias) != Some(alias@) && !it.path@.0 {
                        r matches Step::Run { command: Command::AliasSet { path, alias: a }, then: Pending::AliasSet }
                            && path@ == it.path@.1 && a == alias
                    } else {
                        r == Step::Done(TuiActionResponse::Continue)
                    }
                },
            }
}

/// What [`handle_launch_file`] does.
pub open spec fn launch_file_done(before: TuiState, after: TuiState, r: Step) -> bool {
    &&& after == before
    &&& match focused_selection(before) {
                None => r == Step::Done(TuiActionResponse::Continue),
                Some(it) => if it.path@.0 {
                    r matches Step::Run { command: Command::LaunchUrl { url }, then: Pending::LaunchUrl { url: u } }
                        && url@ == it.path@.1 && u@ == it.path@.1
                } else {
                    r matches Step::Run { command: Command::LaunchFile { path }, then: Pending::LaunchFile { shown } }
                        && path@ == it.path@.1 && shown@ == it.path@.1
                },
            }
}

/// What [`handle_launch_mpv`] does.
pub open spec fn launch_mpv_done(before: TuiState, after: TuiState, r: Step) -> bool {
    &&& after == before
    &&& r == (Step::Run { command: Command::MpvSpawn, then: Pending::MpvSpawn })
}

/// What [`handle_toggle_play`] does.
pub open spec fn toggle_play_done(before: TuiState, after: TuiState, r: Step) -> bool {
    &&& after == before
    &&& r == (Step::Run { command: Command::MpvTogglePlay, then: Pending::TogglePlay })
}

/// Handling an action failed.
#[derive(Clone, Copy, Debug, PartialEq, Eq)]
pub struct TuiActionError;

/// Work the application does after the interface closes a frame: open notes or the
/// sources editor for a path, run the fuzzy notes search, or generate show notes.
#[derive(Clone, Debug, PartialEq)]
pub struct Fork {
    pub notes_path: Option<ItemPath>,
    pub fuzzy_notes: bool,
    pub sources_path: Option<ItemPath>,
    pub generate_notes: Option<String>,
}

impl Fork {
    /// Nothing to do.
    pub fn new() -> (f: Fork)
        ensures
            f.notes_path is None,
            !f.fuzzy_notes,
            f.sources_path is None,
            f.generate_notes is None,
    {
        Fork { notes_path: None, fuzzy_notes: false, sources_path: None, generate_notes: None }
    }
}

impl Default for Fork {
    fn default() -> (f: Fork)
        ensures
            f.notes_path is None,
            !f.fuzzy_notes,
            f.sources_path is None,
            f.generate_notes is None,
    {
        Fork::new()
    }
}

/// A command the application runs for an action.
#[derive(Clone, Debug, PartialEq)]
pub enum Command {
    /// Persist the playlist and the library.
    PlaylistSave { playlist_items: Vec<PlaylistItem>, library_items: Vec<PlaylistItem> },
    /// Add a URL entry to the library.
    UrlAdd { url: String },
    /// Store an alias for a file in the current workspace.
    AliasSet { path: String, alias: String },
    /// Open a file with its configured program or the default opener.
    LaunchFile { path: String },
    /// Open a URL with the launcher.
    LaunchUrl { url: String },
    /// Start mpv, unless it runs already.
    MpvSpawn,
    /// Pause or resume playback in mpv.
    MpvTogglePlay,
    /// Replace mpv's playlist with the files at these paths.
    MpvLoadPlaylist { paths: Vec<String> },
    /// Tell whether a file exists on disk.
    FileExists { path: String },
    /// Look for new files in the library directory and analyse them.
    LibraryAnalyze,
}

/// What a command that succeeded produced.
#[derive(Clone, Debug, PartialEq)]
pub enum CommandResult {
    PlaylistSaved,
    UrlAdded { item: PlaylistItem },
    AliasSet,
    FileLaunched { used_default_opener: bool },
    UrlLaunched,
    MpvSpawned { was_already_running: bool },
    MpvToggledPlay,
    MpvPlaylistLoaded { count: usize },
    FileExists { exists: bool },
    LibraryAnalyzed { new_files_count: usize },
}

/// What remains to do once a command has run.
#[derive(Clone, Debug, PartialEq)]
pub enum Pending {
    /// Report the save; then quit or continue.
    SaveThen { quit: bool },
    /// Move the selected playlist item to the library, knowing whether its file exists.
    MoveToLibrary,
    /// A save after moving an item; its failure fails the action.
    MovedSave,
    /// Put the added URL entry into the library and save.
    UrlAdd,
    /// A save after adding a URL entry; its failure fails the action.
    UrlSave,
    /// Report the save after deleting a URL entry.
    DeleteSave,
    /// Report opening the file whose path text is given.
    LaunchFile { shown: String },
    /// Report opening the URL.
    LaunchUrl { url: String },
    /// Report starting mpv.
    MpvSpawn,
    /// Report toggling playback.
    TogglePlay,
    /// Report loading the playlist into mpv.
    MpvLoad,
    /// Storing an alias; its failure fails the action.
    AliasSet,
}

/// The next step of handling an action.
#[derive(Clone, Debug, PartialEq)]
pub enum Step {
    /// Handling is complete.
    Done(TuiActionResponse),
    /// Handling failed.
    Failed(TuiActionError),
    /// Run `command`, then call [`resume`] with `then` and the outcome.
    Run { command: Command, then: Pending },
    /// Start `command` in the background. Handling is complete and the program goes
    /// on; when the command has ended, call [`TuiState::finish_refresh`].
    Spawn(Command),
    /// The application handles this action itself (it reads the configuration).
    External(TuiAction),
}

/// Whether an outcome is one the command for `p` can produce.
pub open spec fn outcome_fits(p: Pending, outcome: Result<CommandResult, String>) -> bool {
    match outcome {
        Err(_) => true,
        Ok(res) => match p {
            Pending::SaveThen { .. } => res is PlaylistSaved,
            Pending::MoveToLibrary => res is FileExists,
            Pending::MovedSave => true,
            Pending::UrlAdd => res is UrlAdded,
            Pending::UrlSave => true,
            Pending::DeleteSave => res is PlaylistSaved,
            Pending::LaunchFile { .. } => res is FileLaunched,
            Pending::LaunchUrl { .. } => true,
            Pending::MpvSpawn => res is MpvSpawned,
            Pending::TogglePlay => res is MpvToggledPlay,
            Pending::MpvLoad => res is MpvPlaylistLoaded,
            Pending::AliasSet => true,
        },
    }
}

/// Whether `outcome` is one the command run for `p` can produce: what [`resume`] takes.
pub fn fits(p: &Pending, outcome: &Result<CommandResult, String>) -> (r: bool)
    ensures
        r == outcome_fits(*p, *outcome),
{
    match outcome {
        Err(_) => true,
        Ok(res) => match p {
            Pending::SaveThen { .. } => matches!(res, CommandResult::PlaylistSaved),
            Pending::MoveToLibrary => matches!(res, CommandResult::FileExists { .. }),
            Pending::MovedSave => true,
            Pending::UrlAdd => matches!(res, CommandResult::UrlAdded { .. }),
            Pending::UrlSave => true,
            Pending::DeleteSave => matches!(res, CommandResult::PlaylistSaved),
            Pending::LaunchFile { .. } => matches!(res, CommandResult::FileLaunched { .. }),
            Pending::LaunchUrl { .. } => true,
            Pending::MpvSpawn => matches!(res, CommandResult::MpvSpawned { .. }),
            Pending::TogglePlay => matches!(res, CommandResult::MpvToggledPlay),
            Pending::MpvLoad => matches!(res, CommandResult::MpvPlaylistLoaded { .. }),
            Pending::AliasSet => true,
        },
    }
}

/// Whether `s` is a step that saves the playlist and library of `st`, continuing with `then`.
pub open spec fn saves(s: Step, st: TuiState, then: Pending) -> bool {
    s matches Step::Run { command: Command::PlaylistSave { playlist_items, library_items }, then: t }
        && playlist_items@ == st.playlist_pane.items@ && library_items@ == st.library_pane.items@
        && t == then
}

fn save_step(state: &TuiState, then: Pending) -> (r: Step)
    ensures
        saves(r, *state, then),
{
    Step::Run {
        command: Command::PlaylistSave {
            playlist_items: duplicate_items(&state.playlist_pane.items),
            library_items: duplicate_items(&state.library_pane.items),
        },
        then,
    }
}

fn message(prefix: &str, detail: &String) -> (r: String)
    ensures
        r@ == prefix@ + detail@,
{
    let mut m = owned(prefix);
    m.push_str(detail.as_str());
    m
}

/// Saves the playlist and library, reporting the outcome in the status bar or the
/// error popup; [`resume`] then continues.
pub fn handle_save(state: &mut TuiState) -> (r: Step)
    ensures
        save_done(*old(state), *final(state), r),
{
    save_step(state, Pending::SaveThen { quit: false })
}

/// Saves the playlist and library, reports the outcome, then quits.
pub fn handle_quit(state: &mut TuiState) -> (r: Step)
    ensures
        quit_done(*old(state), *final(state), r),
{
    save_step(state, Pending::SaveThen { quit: true })
}

/// Shows or hides the help listing.
pub fn handle_show_help(state: &mut TuiState) -> (r: TuiActionResponse)
    ensures
        show_help_done(*old(state), *final(state), r),
{
    state.global_handler.toggle_help();
    TuiActionResponse::Continue
}

/// Begins typing a filter pattern in the focused pane.
pub fn handle_start_filter(state: &mut TuiState) -> (r: TuiActionResponse)
    ensures
        start_filter_done(*old(state), *final(state), r),
{
    state.start_filter();
    TuiActionResponse::Continue
}

/// Shows aliases first.
pub fn handle_show_alias(state: &mut TuiState) -> (r: TuiActionResponse)
    ensures
        show_alias_done(*old(state), *final(state), r),
{
    state.display_mode = ItemDisplayMode::Alias;
    TuiActionResponse::Continue
}

/// Shows paths first.
pub fn handle_show_path(state: &mut TuiState) -> (r: TuiActionResponse)
    ensures
        show_path_done(*old(state), *final(state), r),
{
    state.display_mode = ItemDisplayMode::Path;
    TuiActionResponse::Continue
}

/// Opens the URL popup.
pub fn handle_add_url(state: &mut TuiState) -> (r: TuiActionResponse)
    ensures
        add_url_done(*old(state), *final(state), r),
{
    state.start_url_input();
    TuiActionResponse::Continue
}

/// Adds a URL entry to the library; [`resume`] puts it in place and saves.
pub fn handle_url_submit(state: &mut TuiState, url: String) -> (r: Step)
    ensures
        url_submit_done(*old(state), *final(state), url, r),
{
    Step::Run { command: Command::UrlAdd { url }, then: Pending::UrlAdd }
}

/// Deletes the selected library item when it is a URL entry, then saves; a file
/// cannot be deleted and only a status message says so.
pub fn handle_delete(state: &mut TuiState) -> (r: Step)
    ensures
        delete_done(*old(state), *final(state), r),
{
    let is_virtual = match state.selected_library_item() {
        Some(item) => Some(item.is_virtual),
        None => None,
    };
    match is_virtual {
        None => Step::Done(TuiActionResponse::Continue),
        Some(true) => {
            state.library_pane.remove();
            save_step(state, Pending::DeleteSave)
        },
        Some(false) => {
            state.status_bar.set("Only virtual entries (URLs) can be deleted.");
            Step::Done(TuiActionResponse::Continue)
        },
    }
}

/// Moves the selection up in the focused pane.
pub fn handle_move_up(state: &mut TuiState) -> (r: TuiActionResponse)
    ensures
        move_up_done(*old(state), *final(state), r),
{
    match state.focused_pane {
        Pane::Playlist => state.move_playlist_up(),
        Pane::Library => state.move_library_up(),
    }
    TuiActionResponse::Continue
}

/// Moves the selection down in the focused pane.
pub fn handle_move_down(state: &mut TuiState) -> (r: TuiActionResponse)
    ensures
        move_down_done(*old(state), *final(state), r),
{
    match state.focused_pane {
        Pane::Playlist => state.move_playlist_down(),
        Pane::Library => state.move_library_down(),
    }
    TuiActionResponse::Continue
}

/// Moves the focus to the other pane unless it is empty.
pub fn handle_switch_pane(state: &mut TuiState) -> (r: TuiActionResponse)
    ensures
        switch_pane_done(*old(state), *final(state), r),
{
    state.switch_pane();
    TuiActionResponse::Continue
}

/// Focuses the playlist unless it is empty.
pub fn handle_focus_playlist(state: &mut TuiState) -> (r: TuiActionResponse)
    ensures
        focus_playlist_done(*old(state), *final(state), r),
{
    if state.playlist_pane.items.len() > 0 {
        state.focused_pane = Pane::Playlist;
    }
    TuiActionResponse::Continue
}

/// Focuses the library unless it is empty.
pub fn handle_focus_library(state: &mut TuiState) -> (r: TuiActionResponse)
    ensures
        focus_library_done(*old(state), *final(state), r),
{
    if state.library_pane.items.len() > 0 {
        state.focused_pane = Pane::Library;
    }
    TuiActionResponse::Continue
}

/// Moves the selected playlist item up, unless a filter is applied to the playlist.
pub fn handle_reorder_up(state: &mut TuiState) -> (r: Result<TuiActionResponse, TuiActionError>)
    requires
        old(state).playlist_pane.filter.applied is None ==> (old(state).playlist_pane.selected == 0
            || old(state).playlist_pane.selected < old(state).playlist_pane.items@.len()),

    ensures
        reorder_up_done(*old(state), *final(state), r),
{
    if !state.has_active_filter(Pane::Playlist) {
        state.reorder_playlist_up();
        state.needs_clear = true;
    }
    Ok(TuiActionResponse::Continue)
}

/// Moves the selected playlist item down, unless a filter is applied to the playlist.
pub fn handle_reorder_down(state: &mut TuiState) -> (r: Result<TuiActionResponse, TuiActionError>)
    ensures
        reorder_down_done(*old(state), *final(state), r),
{
    if !state.has_active_filter(Pane::Playlist) {
        state.reorder_playlist_down();
        state.needs_clear = true;
    }
    Ok(TuiActionResponse::Continue)
}

/// Starts moving the selected playlist item to the library: a file that is not a
/// URL entry is first checked on disk; [`resume`] then moves it.
pub fn handle_move_to_library(state: &mut TuiState) -> (r: Step)
    ensures
        move_to_library_done(*old(state), *final(state), r),
{
    let check: Option<Option<String>> = match state.selected_playlist_item() {
        None => None,
        Some(item) => if !item.is_virtual {
            match item.path.as_file() {
                Some(p) => Some(Some(p.clone())),
                None => Some(None),
            }
        } else {
            Some(None)
        },
    };
    match check {
        None => Step::Done(TuiActionResponse::Continue),
        Some(Some(path)) => Step::Run { command: Command::FileExists { path }, then: Pending::MoveToLibrary },
        Some(None) => {
            let missing = match state.selected_playlist_item() {
                Some(item) => !item.is_virtual,
                None => false,
            };
            move_to_library_now(state, missing);
            save_step(state, Pending::MovedSave)
        },
    }
}

/// The state after moving the selected playlist item `it` to the library: the item
/// joins the library (sorted by path) unless its file is missing, it leaves the
/// playlist, the focus goes to the library when the playlist empties, and the screen
/// is marked for clearing.
pub open spec fn moved_to_library(before: TuiState, after: TuiState, it: PlaylistItem, missing: bool) -> bool {
    let i = selected_index(before.playlist_pane.items@, before.playlist_pane.filter, before.playlist_pane.selected as nat)->0;
    let pl_items = before.playlist_pane.items@.remove(i);
    &&& after.library_pane.items@ == if missing {
        before.library_pane.items@
    } else {
        sorted_by_path(before.library_pane.items@.push(it))
    }
    &&& after.library_pane.selected == before.library_pane.selected
    &&& after.library_pane.filter == before.library_pane.filter
    &&& after.playlist_pane.items@ == pl_items
    &&& after.playlist_pane.filter == before.playlist_pane.filter
    &&& after.playlist_pane.selected as nat == crate::common::clamped_selection(before.playlist_pane.selected as nat, pl_items.len())
    &&& after.focused_pane == if pl_items.len() == 0 { Pane::Library } else { before.focused_pane }
    &&& after == (TuiState {
            playlist_pane: after.playlist_pane,
            library_pane: after.library_pane,
            focused_pane: after.focused_pane,
            needs_clear: true,
            ..before
        })
}

fn move_to_library_now(state: &mut TuiState, missing: bool)
    requires
        playlist_selection(*old(state)) is Some,
    ensures
        moved_to_library(*old(state), *final(state), playlist_selection(*old(state))->0, missing),
{
    proof {
        crate::common::lemma_selected_index_bounds(state.playlist_pane.items@, state.playlist_pane.filter,
            state.playlist_pane.selected as nat);
    }
    let item = match state.selected_playlist_item() {
        Some(it) => it.duplicate(),
        None => {
            assert(false);
            return;
        },
    };
    if !missing {
        state.library_pane.items.push(item);
        sort_by_path(&mut state.library_pane.items);
    }
    state.remove_from_playlist();
    if state.playlist_pane.items.len() == 0 {
        state.focused_pane = Pane::Library;
    }
    state.needs_clear = true;
}

/// Moves the selected library item to the playlist (unless its path is there
/// already), removes it from the library, focuses the playlist when the library
/// empties, then saves.
pub fn handle_move_to_playlist(state: &mut TuiState) -> (r: Step)
    ensures
        move_to_playlist_done(*old(state), *final(state), r),
{
    proof {
        crate::common::lemma_selected_index_bounds(state.library_pane.items@, state.library_pane.filter,
            state.library_pane.selected as nat);
    }
    let item = match state.selected_library_item() {
        Some(it) => it.duplicate(),
        None => {
            return Step::Done(TuiActionResponse::Continue);
        },
    };
    state.add_to_playlist(item.path, item.duration, item.alias, item.mime_type, item.is_virtual);
    state.remove_from_library();
    if state.library_pane.items.len() == 0 {
        state.focused_pane = Pane::Playlist;
    }
    state.needs_clear = true;
    save_step(state, Pending::MovedSave)
}

/// Opens the alias popup for the selected item.
pub fn handle_rename(state: &mut TuiState) -> (r: TuiActionResponse)
    ensures
        rename_done(*old(state), *final(state), r),
{
    state.start_rename();
    TuiActionResponse::Continue
}

/// Asks for the notes of the selected item to be opened.
pub fn handle_notes(state: &mut TuiState, fork: &mut Fork) -> (r: TuiActionResponse)
    ensures
        notes_done(*old(state), *final(state), *old(fork), *final(fork), r),
{
    match state.get_selected_item() {
        Some(item) => {
            fork.notes_path = Some(item.path.duplicate());
        },
        None => {},
    }
    TuiActionResponse::Continue
}

/// Asks for the fuzzy notes search.
pub fn handle_fuzzy_notes(state: &mut TuiState, fork: &mut Fork) -> (r: TuiActionResponse)
    ensures
        fuzzy_notes_done(*old(state), *final(state), *old(fork), *final(fork), r),
{
    fork.fuzzy_notes = true;
    TuiActionResponse::Continue
}

/// Asks for the sources of the selected item to be edited.
pub fn handle_edit_sources(state: &mut TuiState, fork: &mut Fork) -> (r: TuiActionResponse)
    ensures
        edit_sources_done(*old(state), *final(state), *old(fork), *final(fork), r),
{
    match state.get_selected_item() {
        Some(item) => {
            fork.sources_path = Some(item.path.duplicate());
        },
        None => {},
    }
    TuiActionResponse::Continue
}

/// Asks for show notes in the given format.
pub fn handle_generate_show_notes(state: &mut TuiState, fork: &mut Fork, kind: ShowNoteKind) -> (r: TuiActionResponse)
    ensures
        generate_show_notes_done(*old(state), *final(state), *old(fork), *final(fork), kind, r),
{
    fork.generate_notes = Some(owned(kind.as_str()));
    TuiActionResponse::Continue
}

/// Sets the alias of the selected item; when it changed and the item is a file, the
/// alias is also stored, and [`resume`] reports a failure to store it.
pub fn handle_rename_submit(state: &mut TuiState, alias: String) -> (r: Step)
    ensures
        rename_submit_done(*old(state), *final(state), alias, r),
{
    proof {
        crate::common::lemma_selected_index_bounds(state.playlist_pane.items@, state.playlist_pane.filter,
            state.playlist_pane.selected as nat);
        crate::common::lemma_selected_index_bounds(state.library_pane.items@, state.library_pane.filter,
            state.library_pane.selected as nat);
    }
    let ghost before = *state;
    match state.get_selected_item_mut() {
        None => Step::Done(TuiActionResponse::Continue),
        Some(item) => {
            let unchanged = match &item.alias {
                Some(a) => *a == alias,
                None => false,
            };
            let file = match item.path.as_file() {
                Some(p) => Some(p.clone()),
                None => None,
            };
            let stored = alias.clone();
            item.alias = Some(alias);
            if unchanged {
                Step::Done(TuiActionResponse::Continue)
            } else {
                match file {
                    Some(path) => Step::Run { command: Command::AliasSet { path, alias: stored }, then: Pending::AliasSet },
                    None => Step::Done(TuiActionResponse::Continue),
                }
            }
        },
    }
}

/// Opens the selected item: a file through the launch command, a URL through the
/// launcher; [`resume`] reports the outcome.
pub fn handle_launch_file(state: &mut TuiState) -> (r: Step)
    ensures
        launch_file_done(*old(state), *final(state), r),
{
    match state.get_selected_item() {
        None => Step::Done(TuiActionResponse::Continue),
        Some(item) => match &item.path {
            ItemPath::File(p) => Step::Run {
                command: Command::LaunchFile { path: p.clone() },
                then: Pending::LaunchFile { shown: p.clone() },
            },
            ItemPath::Url(u) => Step::Run {
                command: Command::LaunchUrl { url: u.clone() },
                then: Pending::LaunchUrl { url: u.clone() },
            },
        },
    }
}

/// Starts mpv; [`resume`] reports whether it was already running.
pub fn handle_launch_mpv(state: &mut TuiState) -> (r: Step)
    ensures
        launch_mpv_done(*old(state), *final(state), r),
{
    Step::Run { command: Command::MpvSpawn, then: Pending::MpvSpawn }
}

/// Pauses or resumes playback; [`resume`] reports the outcome.
pub fn handle_toggle_play(state: &mut TuiState) -> (r: Step)
    ensures
        toggle_play_done(*old(state), *final(state), r),
{
    Step::Run { command: Command::MpvTogglePlay, then: Pending::TogglePlay }
}

/// Sets the status message and completes.
fn report(state: &mut TuiState, text: String, response: TuiActionResponse) -> (r: Step)
    ensures
        *final(state) == (TuiState { status_bar: final(state).status_bar, ..*old(state) }),
        final(state).status_bar.shown() == Some(text@),
        r == Step::Done(response),
{
    state.set_status(text);
    Step::Done(response)
}

/// Shows an error and completes.
fn report_error(state: &mut TuiState, text: String, response: TuiActionResponse) -> (r: Step)
    ensures
        *final(state) == (TuiState { error_popup: final(state).error_popup, ..*old(state) }),
        final(state).error_popup.active,
        final(state).error_popup.message@ == text@,
        r == Step::Done(response),
{
    state.show_error(text);
    Step::Done(response)
}

/// The status message, or the error message, that finishing `p` with `outcome` shows.
pub open spec fn outcome_message(p: Pending, outcome: Result<CommandResult, String>) -> Option<(bool, Seq<char>)> {
    match p {
        Pending::SaveThen { .. } => match outcome {
            Ok(_) => Some((false, "Playlist saved"@)),
            Err(e) => Some((true, "Failed to save: "@ + e@)),
        },
        Pending::DeleteSave => match outcome {
            Ok(_) => Some((false, "Virtual entry deleted"@)),
            Err(e) => Some((true, "Failed to save: "@ + e@)),
        },
        Pending::UrlSave => match outcome {
            Ok(_) => Some((false, "URL added to library"@)),
            Err(e) => None,
        },
        Pending::UrlAdd => match outcome {
            Ok(_) => None,
            Err(e) => Some((true, "Failed to add URL: "@ + e@)),
        },
        Pending::LaunchFile { shown } => match outcome {
            Ok(CommandResult::FileLaunched { used_default_opener }) => Some((false, if used_default_opener {
                "Opening with default opener: "@ + shown@
            } else {
                "Opening: "@ + shown@
            })),
            Ok(_) => None,
            Err(e) => Some((true, "Failed to open file: "@ + e@)),
        },
        Pending::LaunchUrl { url } => match outcome {
            Ok(_) => Some((false, "Opening URL: "@ + url@)),
            Err(e) => Some((true, "Failed to open URL: "@ + e@)),
        },
        Pending::MpvSpawn => match outcome {
            Ok(CommandResult::MpvSpawned { was_already_running }) => Some((false, if was_already_running {
                "MPV already running"@
            } else {
                "MPV launched"@
            })),
            Ok(_) => None,
            Err(e) => Some((true, "Failed to launch mpv: "@ + e@)),
        },
        Pending::TogglePlay => match outcome {
            Ok(_) => Some((false, "Toggled playback"@)),
            Err(e) => Some((true, "Failed to toggle playback: "@ + e@)),
        },
        Pending::MpvLoad => match outcome {
            Ok(CommandResult::MpvPlaylistLoaded { count }) => Some((false, "Loaded "@ + decimal(count as nat)
                + " items into mpv"@)),
            Ok(_) => None,
            Err(e) => Some((true, "Failed to load playlist in mpv: "@ + e@)),
        },
        _ => None,
    }
}

/// What finishing `then` with `outcome` does: the message shown (see
/// [`outcome_message`]), and the rest of the state change and the next step.
pub open spec fn resumed(
    before: TuiState,
    after: TuiState,
    then: Pending,
    outcome: Result<CommandResult, String>,
    r: Step,
) -> bool {
    &&& match outcome_message(then, outcome) {
        Some((false, text)) => after == (TuiState { status_bar: after.status_bar, ..before })
            && after.status_bar.shown() == Some(text),
        Some((true, text)) => after == (TuiState { error_popup: after.error_popup, ..before })
            && after.error_popup.active && after.error_popup.message@ == text,
        None => true,
    }
    &&& match then {
        Pending::SaveThen { quit } => r == Step::Done(if quit {
            TuiActionResponse::ShouldQuit
        } else {
            TuiActionResponse::Continue
        }),
        Pending::MovedSave | Pending::AliasSet => after == before && r == match outcome {
            Ok(_) => Step::Done(TuiActionResponse::Continue),
            Err(_) => Step::Failed(TuiActionError),
        },
        Pending::UrlSave => match outcome {
            Ok(_) => r == Step::Done(TuiActionResponse::Continue),
            Err(_) => after == before && r == Step::Failed(TuiActionError),
        },
        Pending::UrlAdd => match outcome {
            Ok(CommandResult::UrlAdded { item }) => after == (TuiState { library_pane: LibraryPane {
                items: after.library_pane.items, ..before.library_pane }, ..before })
                && after.library_pane.items@ == sorted_by_path(before.library_pane.items@.push(item))
                && saves(r, after, Pending::UrlSave),
            Ok(_) => true,
            Err(_) => r == Step::Done(TuiActionResponse::Continue),
        },
        Pending::MoveToLibrary => match playlist_selection(before) {
            None => after == before && r == Step::Done(TuiActionResponse::Continue),
            Some(it) => moved_to_library(before, after, it, match outcome {
                Ok(CommandResult::FileExists { exists }) => !exists && !it.is_virtual,
                _ => !it.is_virtual,
            }) && saves(r, after, Pending::MovedSave),
        },
        _ => r == Step::Done(TuiActionResponse::Continue),
    }
}

fn resume_save(state: &mut TuiState, quit: bool, outcome: Result<CommandResult, String>) -> (r: Step)
    ensures
        resumed(*old(state), *final(state), Pending::SaveThen { quit }, outcome, r),
{
    let response = if quit { TuiActionResponse::ShouldQuit } else { TuiActionResponse::Continue };
    match outcome {
        Ok(_) => report(state, owned("Playlist saved"), response),
        Err(e) => report_error(state, message("Failed to save: ", &e), response),
    }
}

fn resume_delete(state: &mut TuiState, outcome: Result<CommandResult, String>) -> (r: Step)
    ensures
        resumed(*old(state), *final(state), Pending::DeleteSave, outcome, r),
{
    match outcome {
        Ok(_) => report(state, owned("Virtual entry deleted"), TuiActionResponse::Continue),
        Err(e) => report_error(state, message("Failed to save: ", &e), TuiActionResponse::Continue),
    }
}

fn resume_url_save(state: &mut TuiState, outcome: Result<CommandResult, String>) -> (r: Step)
    ensures
        resumed(*old(state), *final(state), Pending::UrlSave, outcome, r),
{
    match outcome {
        Ok(_) => report(state, owned("URL added to library"), TuiActionResponse::Continue),
        Err(_) => Step::Failed(TuiActionError),
    }
}

fn resume_url_add(state: &mut TuiState, outcome: Result<CommandResult, String>) -> (r: Step)
    requires
        outcome_fits(Pending::UrlAdd, outcome),
    ensures
        resumed(*old(state), *final(state), Pending::UrlAdd, outcome, r),
{
    match outcome {
        Ok(CommandResult::UrlAdded { item }) => {
            state.library_pane.items.push(item);
            sort_by_path(&mut state.library_pane.items);
            save_step(state, Pending::UrlSave)
        },
        Ok(_) => {
            assert(false);
            Step::Done(TuiActionResponse::Continue)
        },
        Err(e) => report_error(state, message("Failed to add URL: ", &e), TuiActionResponse::Continue),
    }
}

fn resume_move(state: &mut TuiState, outcome: Result<CommandResult, String>) -> (r: Step)
    ensures
        resumed(*old(state), *final(state), Pending::MoveToLibrary, outcome, r),
{
    let present = match state.selected_playlist_item() {
        Some(it) => Some(it.is_virtual),
        None => None,
    };
    match present {
        None => Step::Done(TuiActionResponse::Continue),
        Some(is_virtual) => {
            let missing = match outcome {
                Ok(CommandResult::FileExists { exists }) => !exists && !is_virtual,
                _ => !is_virtual,
            };
            move_to_library_now(state, missing);
            save_step(state, Pending::MovedSave)
        },
    }
}

fn resume_launch_file(state: &mut TuiState, shown: String, outcome: Result<CommandResult, String>) -> (r: Step)
    requires
        outcome_fits(Pending::LaunchFile { shown }, outcome),
    ensures
        resumed(*old(state), *final(state), Pending::LaunchFile { shown }, outcome, r),
{
    match outcome {
        Ok(CommandResult::FileLaunched { used_default_opener }) => if used_default_opener {
            report(state, message("Opening with default opener: ", &shown), TuiActionResponse::Continue)
        } else {
            report(state, message("Opening: ", &shown), TuiActionResponse::Continue)
        },
        Ok(_) => {
            assert(false);
            Step::Done(TuiActionResponse::Continue)
        },
        Err(e) => report_error(state, message("Failed to open file: ", &e), TuiActionResponse::Continue),
    }
}

fn resume_launch_url(state: &mut TuiState, url: String, outcome: Result<CommandResult, String>) -> (r: Step)
    ensures
        resumed(*old(state), *final(state), Pending::LaunchUrl { url }, outcome, r),
{
    match outcome {
        Ok(_) => report(state, message("Opening URL: ", &url), TuiActionResponse::Continue),
        Err(e) => report_error(state, message("Failed to open URL: ", &e), TuiActionResponse::Continue),
    }
}

fn resume_mpv_spawn(state: &mut TuiState, outcome: Result<CommandResult, String>) -> (r: Step)
    requires
        outcome_fits(Pending::MpvSpawn, outcome),
    ensures
        resumed(*old(state), *final(state), Pending::MpvSpawn, outcome, r),
{
    match outcome {
        Ok(CommandResult::MpvSpawned { was_already_running }) => if was_already_running {
            report(state, owned("MPV already running"), TuiActionResponse::Continue)
        } else {
            report(state, owned("MPV launched"), TuiActionResponse::Continue)
        },
        Ok(_) => {
            assert(false);
            Step::Done(TuiActionResponse::Continue)
        },
        Err(e) => report_error(state, message("Failed to launch mpv: ", &e), TuiActionResponse::Continue),
    }
}

fn resume_toggle_play(state: &mut TuiState, outcome: Result<CommandResult, String>) -> (r: Step)
    ensures
        resumed(*old(state), *final(state), Pending::TogglePlay, outcome, r),
{
    match outcome {
        Ok(_) => report(state, owned("Toggled playback"), TuiActionResponse::Continue),
        Err(e) => report_error(state, message("Failed to toggle playback: ", &e), TuiActionResponse::Continue),
    }
}

fn resume_mpv_load(state: &mut TuiState, outcome: Result<CommandResult, String>) -> (r: Step)
    requires
        outcome_fits(Pending::MpvLoad, outcome),
    ensures
        resumed(*old(state), *final(state), Pending::MpvLoad, outcome, r),
{
    match outcome {
        Ok(CommandResult::MpvPlaylistLoaded { count }) => {
            let mut text = owned("Loaded ");
            push_decimal(&mut text, count as u64);
            text.push_str(" items into mpv");
            report(state, text, TuiActionResponse::Continue)
        },
        Ok(_) => {
            assert(false);
            Step::Done(TuiActionResponse::Continue)
        },
        Err(e) => report_error(state, message("Failed to load playlist in mpv: ", &e), TuiActionResponse::Continue),
    }
}

/// Loads the playlist's media files into mpv. `media_paths` are the playlist's file
/// paths that the configuration takes for video or audio, in order (the action is
/// dispatched as [`Step::External`] for the application to find them); with none an
/// error is shown, else [`resume`] reports how many mpv took.
pub fn handle_load_playlist(state: &mut TuiState, media_paths: Vec<String>) -> (r: Step)
    ensures
        media_paths@.len() == 0 ==> *final(state) == (TuiState { error_popup: final(state).error_popup, ..*old(state) })
            && final(state).error_popup.active
            && final(state).error_popup.message@ == "No video or audio files in playlist"@
            && r == Step::Done(TuiActionResponse::Continue),
        media_paths@.len() > 0 ==> *final(state) == *old(state)
            && r == (Step::Run { command: Command::MpvLoadPlaylist { paths: media_paths }, then: Pending::MpvLoad }),
{
    if media_paths.len() == 0 {
        report_error(state, owned("No video or audio files in playlist"), TuiActionResponse::Continue)
    } else {
        Step::Run { command: Command::MpvLoadPlaylist { paths: media_paths }, then: Pending::MpvLoad }
    }
}

/// Continues an action once its command has run with `outcome` (see [`resumed`]).
///
/// Saving and reporting: the status bar shows what succeeded, the error popup what
/// failed; quitting after a save quits whatever its outcome. A failed save after a
/// move or after adding a URL, and a failed alias store, fail the action. An added URL
/// entry joins the library, sorted by path, and is saved. A checked file is moved to
/// the library, or left out of it when missing.
pub fn resume(state: &mut TuiState, then: Pending, outcome: Result<CommandResult, String>) -> (r: Step)
    requires
        outcome_fits(then, outcome),
    ensures
        resumed(*old(state), *final(state), then, outcome, r),
{
    match then {
        Pending::SaveThen { quit } => resume_save(state, quit, outcome),
        Pending::DeleteSave => resume_delete(state, outcome),
        Pending::MovedSave => match outcome {
            Ok(_) => Step::Done(TuiActionResponse::Continue),
            Err(_) => Step::Failed(TuiActionError),
        },
        Pending::AliasSet => match outcome {
            Ok(_) => Step::Done(TuiActionResponse::Continue),
            Err(_) => Step::Failed(TuiActionError),
        },
        Pending::UrlSave => resume_url_save(state, outcome),
        Pending::UrlAdd => resume_url_add(state, outcome),
        Pending::MoveToLibrary => resume_move(state, outcome),
        Pending::LaunchFile { shown } => resume_launch_file(state, shown, outcome),
        Pending::LaunchUrl { url } => resume_launch_url(state, url, outcome),
        Pending::MpvSpawn => resume_mpv_spawn(state, outcome),
        Pending::TogglePlay => resume_toggle_play(state, outcome),
        Pending::MpvLoad => resume_mpv_load(state, outcome),
    }
}

/// Refreshes the library: reports a refresh that is still running, or starts the
/// library analysis in the background and says so.
pub fn handle_refresh(state: &mut TuiState) -> (r: Step)
    ensures
        refresh_done(*old(state), *final(state), r),
{
    if state.is_refreshing() {
        state.status_bar.set("Refresh already in progress...");
        return Step::Done(TuiActionResponse::Continue);
    }
    state.start_refresh();
    state.status_bar.set("Refreshing library...");
    Step::Spawn(Command::LibraryAnalyze)
}

/// Handles an action: changes the state as the action's handler does, and returns the
/// next step (see [`resume`] for steps that run a command).
pub fn dispatch(state: &mut TuiState, fork: &mut Fork, action: TuiAction) -> (r: Step)
    requires
        action == TuiAction::ReorderUp && old(state).playlist_pane.filter.applied is None ==> (
            old(state).playlist_pane.selected == 0
            || old(state).playlist_pane.selected < old(state).playlist_pane.items@.len()),
    ensures
        match action {
            TuiAction::ShowHelp => *final(fork) == *old(fork) && r == Step::Done(TuiActionResponse::Continue) && show_help_done(*old(state), *final(state), TuiActionResponse::Continue),
            TuiAction::Quit => *final(fork) == *old(fork) && quit_done(*old(state), *final(state), r),
            TuiAction::Save => *final(fork) == *old(fork) && save_done(*old(state), *final(state), r),
            TuiAction::StartFilter => *final(fork) == *old(fork) && r == Step::Done(TuiActionResponse::Continue) && start_filter_done(*old(state), *final(state), TuiActionResponse::Continue),
            TuiAction::MoveUp => *final(fork) == *old(fork) && r == Step::Done(TuiActionResponse::Continue) && move_up_done(*old(state), *final(state), TuiActionResponse::Continue),
            TuiAction::MoveDown => *final(fork) == *old(fork) && r == Step::Done(TuiActionResponse::Continue) && move_down_done(*old(state), *final(state), TuiActionResponse::Continue),
            TuiAction::SwitchPane => *final(fork) == *old(fork) && r == Step::Done(TuiActionResponse::Continue) && switch_pane_done(*old(state), *final(state), TuiActionResponse::Continue),
            TuiAction::FocusPlaylist => *final(fork) == *old(fork) && r == Step::Done(TuiActionResponse::Continue) && focus_playlist_done(*old(state), *final(state), TuiActionResponse::Continue),
            TuiAction::FocusLibrary => *final(fork) == *old(fork) && r == Step::Done(TuiActionResponse::Continue) && focus_library_done(*old(state), *final(state), TuiActionResponse::Continue),
            TuiAction::ShowAlias => *final(fork) == *old(fork) && r == Step::Done(TuiActionResponse::Continue) && show_alias_done(*old(state), *final(state), TuiActionResponse::Continue),
            TuiAction::ShowPath => *final(fork) == *old(fork) && r == Step::Done(TuiActionResponse::Continue) && show_path_done(*old(state), *final(state), TuiActionResponse::Continue),
            TuiAction::Rename => *final(fork) == *old(fork) && r == Step::Done(TuiActionResponse::Continue) && rename_done(*old(state), *final(state), TuiActionResponse::Continue),
            TuiAction::Notes => r == Step::Done(TuiActionResponse::Continue) && notes_done(*old(state), *final(state), *old(fork), *final(fork), TuiActionResponse::Continue),
            TuiAction::ReorderUp => *final(fork) == *old(fork) && r == Step::Done(TuiActionResponse::Continue) && reorder_up_done(*old(state), *final(state), Ok(TuiActionResponse::Continue)),
            TuiAction::ReorderDown => *final(fork) == *old(fork) && r == Step::Done(TuiActionResponse::Continue) && reorder_down_done(*old(state), *final(state), Ok(TuiActionResponse::Continue)),
            TuiAction::LaunchFile => *final(fork) == *old(fork) && launch_file_done(*old(state), *final(state), r),
            TuiAction::MoveToLibrary => *final(fork) == *old(fork) && move_to_library_done(*old(state), *final(state), r),
            TuiAction::MoveToPlaylist => *final(fork) == *old(fork) && move_to_playlist_done(*old(state), *final(state), r),
            TuiAction::LaunchMpv => *final(fork) == *old(fork) && launch_mpv_done(*old(state), *final(state), r),
            TuiAction::AddUrl => *final(fork) == *old(fork) && r == Step::Done(TuiActionResponse::Continue) && add_url_done(*old(state), *final(state), TuiActionResponse::Continue),
            TuiAction::Delete => *final(fork) == *old(fork) && delete_done(*old(state), *final(state), r),
            TuiAction::FuzzyNotes => r == Step::Done(TuiActionResponse::Continue) && fuzzy_notes_done(*old(state), *final(state), *old(fork), *final(fork), TuiActionResponse::Continue),
            TuiAction::EditSources => r == Step::Done(TuiActionResponse::Continue) && edit_sources_done(*old(state), *final(state), *old(fork), *final(fork), TuiActionResponse::Continue),
            TuiAction::GenerateShowNotes(kind) => r == Step::Done(TuiActionResponse::Continue) && generate_show_notes_done(*old(state), *final(state), *old(fork), *final(fork), kind, TuiActionResponse::Continue),
            TuiAction::RenameSubmit(alias) => *final(fork) == *old(fork) && rename_submit_done(*old(state), *final(state), alias, r),
            TuiAction::UrlSubmit(url) => *final(fork) == *old(fork) && url_submit_done(*old(state), *final(state), url, r),
            TuiAction::TogglePlay => *final(fork) == *old(fork) && toggle_play_done(*old(state), *final(state), r),
            TuiAction::LoadPlaylist => *final(fork) == *old(fork) && *final(state) == *old(state)
                && r == Step::External(TuiAction::LoadPlaylist),
            TuiAction::Refresh => *final(fork) == *old(fork) && refresh_done(*old(state), *final(state), r),
        },
{
    match action {
        TuiAction::ShowHelp => Step::Done(handle_show_help(state)),
        TuiAction::Quit => handle_quit(state),
        TuiAction::Save => handle_save(state),
        TuiAction::StartFilter => Step::Done(handle_start_filter(state)),
        TuiAction::MoveUp => Step::Done(handle_move_up(state)),
        TuiAction::MoveDown => Step::Done(handle_move_down(state)),
        TuiAction::SwitchPane => Step::Done(handle_switch_pane(state)),
        TuiAction::FocusPlaylist => Step::Done(handle_focus_playlist(state)),
        TuiAction::FocusLibrary => Step::Done(handle_focus_library(state)),
        TuiAction::ShowAlias => Step::Done(handle_show_alias(state)),
        TuiAction::ShowPath => Step::Done(handle_show_path(state)),
        TuiAction::Rename => Step::Done(handle_rename(state)),
        TuiAction::Notes => Step::Done(handle_notes(state, fork)),
        TuiAction::ReorderUp => match handle_reorder_up(state) {
                Ok(resp) => Step::Done(resp),
                Err(err) => Step::Failed(err),
            },
        TuiAction::ReorderDown => match handle_reorder_down(state) {
                Ok(resp) => Step::Done(resp),
                Err(err) => Step::Failed(err),
            },
        TuiAction::LaunchFile => handle_launch_file(state),
        TuiAction::MoveToLibrary => handle_move_to_library(state),
        TuiAction::MoveToPlaylist => handle_move_to_playlist(state),
        TuiAction::LaunchMpv => handle_launch_mpv(state),
        TuiAction::AddUrl => Step::Done(handle_add_url(state)),
        TuiAction::Delete => handle_delete(state),
        TuiAction::FuzzyNotes => Step::Done(handle_fuzzy_notes(state, fork)),
        TuiAction::EditSources => Step::Done(handle_edit_sources(state, fork)),
        TuiAction::GenerateShowNotes(kind) => Step::Done(handle_generate_show_notes(state, fork, kind)),
        TuiAction::RenameSubmit(alias) => handle_rename_submit(state, alias),
        TuiAction::UrlSubmit(url) => handle_url_submit(state, url),
        TuiAction::TogglePlay => handle_toggle_play(state),
        TuiAction::LoadPlaylist => Step::External(TuiAction::LoadPlaylist),
        TuiAction::Refresh => handle_refresh(state),
    }
}

} // verus!
