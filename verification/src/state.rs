//! The whole state of the interface and the operations on it.
use vstd::prelude::*;
use crate::common::{
    clamped_selection, selected_index, selection_after_down, selection_after_up, shown_indices,
};
use crate::domain::{Duration, ItemDisplayMode, ItemPath, Pane, PlaylistItem};
use crate::error_popup::ErrorPopup;
use crate::event::{Component, HandleKeyResult, KeyEvent, KeyStatus};
use crate::filter::{Filter, filter_key_handled};
use crate::global_key_handler::GlobalKeyHandler;
use crate::library_pane::{LibraryPane, has_path, item_path_views, refreshed_items, path_views};
use crate::playlist_pane::PlaylistPane;
use crate::rename::{Rename, rename_key_handled};
use crate::status_bar::{MessageText, StatusBar};
use crate::url_input::{UrlInput, url_key_handled};
use crate::which_key::WhichKeyConfig;

verus! {

/// The interface state: both panes, the focus, the status line, the popups and the
/// display mode.
pub struct TuiState {
    pub playlist_pane: PlaylistPane,
    pub library_pane: LibraryPane,
    pub focused_pane: Pane,
    pub status_bar: StatusBar,
    pub rename: Rename,
    pub url_input: UrlInput,
    pub global_handler: GlobalKeyHandler,
    pub needs_clear: bool,
    pub error_popup: ErrorPopup,
    pub display_mode: ItemDisplayMode,
    /// Whether a library analysis started by a refresh is still running.
    pub refreshing: bool,
}

/// The library's selection once a refresh leaves `len` items: kept while in range,
/// else the last row, and 0 when nothing is left.
pub open spec fn refreshed_selection(selected: usize, len: nat) -> usize {
    if len == 0 {
        0
    } else if selected >= len {
        (len - 1) as usize
    } else {
        selected
    }
}

/// The item selected in the playlist pane, if any.
pub open spec fn playlist_selection(s: TuiState) -> Option<PlaylistItem> {
    match selected_index(s.playlist_pane.items@, s.playlist_pane.filter, s.playlist_pane.selected as nat) {
        Some(i) => Some(s.playlist_pane.items@[i]),
        None => None,
    }
}

/// The item selected in the library pane, if any.
pub open spec fn library_selection(s: TuiState) -> Option<PlaylistItem> {
    match selected_index(s.library_pane.items@, s.library_pane.filter, s.library_pane.selected as nat) {
        Some(i) => Some(s.library_pane.items@[i]),
        None => None,
    }
}

/// The item selected in the focused pane, if any.
pub open spec fn focused_selection(s: TuiState) -> Option<PlaylistItem> {
    match s.focused_pane {
        Pane::Playlist => playlist_selection(s),
        Pane::Library => library_selection(s),
    }
}

/// The filter of a pane.
pub open spec fn pane_filter(s: TuiState, pane: Pane) -> Filter {
    match pane {
        Pane::Playlist => s.playlist_pane.filter,
        Pane::Library => s.library_pane.filter,
    }
}

/// `s` with the filter of `pane` replaced by `f`.
pub open spec fn with_pane_filter(s: TuiState, pane: Pane, f: Filter) -> TuiState {
    match pane {
        Pane::Playlist => TuiState { playlist_pane: PlaylistPane { filter: f, ..s.playlist_pane }, ..s },
        Pane::Library => TuiState { library_pane: LibraryPane { filter: f, ..s.library_pane }, ..s },
    }
}

/// The pane that is not `p`.
pub open spec fn other_pane(p: Pane) -> Pane {
    match p {
        Pane::Playlist => Pane::Library,
        Pane::Library => Pane::Playlist,
    }
}

/// The number of items of a pane.
pub open spec fn pane_len(s: TuiState, p: Pane) -> nat {
    match p {
        Pane::Playlist => s.playlist_pane.items@.len(),
        Pane::Library => s.library_pane.items@.len(),
    }
}

/// A new playlist item from its parts, not yet counted in any playlist.
pub open spec fn new_item(
    path: ItemPath,
    duration: Option<Duration>,
    alias: Option<String>,
    mime_type: Option<String>,
    is_virtual: bool,
) -> PlaylistItem {
    PlaylistItem { path, duration, alias, mime_type, is_virtual, playlist_count: 0, has_sources: true }
}

impl TuiState {
    /// Empty panes, focus on the playlist, no message, popups closed, aliases shown.
    pub fn new() -> (s: TuiState)
        ensures
            s.playlist_pane.items@.len() == 0,
            s.playlist_pane.selected == 0,
            !s.playlist_pane.filter.active && s.playlist_pane.filter.applied is None,
            s.library_pane.items@.len() == 0,
            s.library_pane.selected == 0,
            !s.library_pane.filter.active && s.library_pane.filter.applied is None,
            s.focused_pane == Pane::Playlist,
            s.status_bar.shown() is None,
            !s.rename.active,
            !s.url_input.active,
            !s.global_handler.help().active,
            s.global_handler.help().pending_keys@.len() == 0,
            !s.needs_clear,
            !s.error_popup.active,
            s.display_mode == ItemDisplayMode::Alias,
            !s.refreshing,
    {
        TuiState {
            playlist_pane: PlaylistPane::new(),
            library_pane: LibraryPane::new(),
            focused_pane: Pane::Playlist,
            status_bar: StatusBar::new(),
            rename: Rename::new(),
            url_input: UrlInput::new(),
            global_handler: GlobalKeyHandler::new(WhichKeyConfig::default()),
            needs_clear: false,
            error_popup: ErrorPopup::new(),
            display_mode: ItemDisplayMode::default_mode(),
            refreshing: false,
        }
    }

    /// Whether a library analysis started by a refresh is still running.
    pub fn is_refreshing(&self) -> (r: bool)
        ensures
            r == self.refreshing,
    {
        self.refreshing
    }

    /// Records that a library analysis has been started in the background.
    pub fn start_refresh(&mut self)
        ensures
            *final(self) == (TuiState { refreshing: true, ..*old(self) }),
    {
        self.refreshing = true;
    }

    /// Records that the background library analysis has ended, so that a new refresh
    /// may start.
    pub fn finish_refresh(&mut self)
        ensures
            *final(self) == (TuiState { refreshing: false, ..*old(self) }),
    {
        self.refreshing = false;
    }

    /// Shows `message` in the status bar.
    pub fn set_status<M: MessageText>(&mut self, message: M)
        ensures
            *final(self) == (TuiState { status_bar: final(self).status_bar, ..*old(self) }),
            final(self).status_bar.shown() == Some(message.message_chars()),
    {
        self.status_bar.set(message);
    }

    /// The item selected in the playlist pane.
    pub fn selected_playlist_item(&self) -> (r: Option<&PlaylistItem>)
        ensures
            match r {
                Some(it) => playlist_selection(*self) == Some(*it),
                None => playlist_selection(*self) is None,
            },
    {
        self.playlist_pane.selected_item()
    }

    /// The item selected in the library pane.
    pub fn selected_library_item(&self) -> (r: Option<&PlaylistItem>)
        ensures
            match r {
                Some(it) => library_selection(*self) == Some(*it),
                None => library_selection(*self) is None,
            },
    {
        self.library_pane.selected_item()
    }

    /// The item selected in the library pane, for changing it in place.
    pub fn selected_library_item_mut(&mut self) -> (r: Option<&mut PlaylistItem>)
        ensures
            match selected_index(old(self).library_pane.items@, old(self).library_pane.filter, old(self).library_pane.selected as nat) {
                Some(i) => r is Some && *r->0 == old(self).library_pane.items@[i]
                    && *final(self) == (TuiState { library_pane: LibraryPane {
                        items: final(self).library_pane.items, ..old(self).library_pane }, ..*old(self) })
                    && final(self).library_pane.items@ == old(self).library_pane.items@.update(i, *final(r->0)),
                None => r is None && *final(self) == *old(self),
            },
    {
        self.library_pane.selected_item_mut()
    }

    /// Moves the playlist selection up.
    pub fn move_playlist_up(&mut self)
        ensures
            *final(self) == (TuiState { playlist_pane: PlaylistPane {
                selected: selection_after_up(old(self).playlist_pane.items@, old(self).playlist_pane.filter,
                    old(self).playlist_pane.selected as nat) as usize,
                ..old(self).playlist_pane }, ..*old(self) }),
    {
        self.playlist_pane.move_up();
    }

    /// Moves the playlist selection down.
    pub fn move_playlist_down(&mut self)
        ensures
            *final(self) == (TuiState { playlist_pane: PlaylistPane {
                selected: selection_after_down(old(self).playlist_pane.items@, old(self).playlist_pane.filter,
                    old(self).playlist_pane.selected as nat) as usize,
                ..old(self).playlist_pane }, ..*old(self) }),
    {
        self.playlist_pane.move_down();
    }

    /// Moves the library selection up.
    pub fn move_library_up(&mut self)
        ensures
            *final(self) == (TuiState { library_pane: LibraryPane {
                selected: selection_after_up(old(self).library_pane.items@, old(self).library_pane.filter,
                    old(self).library_pane.selected as nat) as usize,
                ..old(self).library_pane }, ..*old(self) }),
    {
        self.library_pane.move_up();
    }

    /// Moves the library selection down.
    pub fn move_library_down(&mut self)
        ensures
            *final(self) == (TuiState { library_pane: LibraryPane {
                selected: selection_after_down(old(self).library_pane.items@, old(self).library_pane.filter,
                    old(self).library_pane.selected as nat) as usize,
                ..old(self).library_pane }, ..*old(self) }),
    {
        self.library_pane.move_down();
    }

    /// Moves the selected playlist item up one place.
    pub fn reorder_playlist_up(&mut self)
        requires
            old(self).playlist_pane.selected == 0
                || old(self).playlist_pane.selected < old(self).playlist_pane.items@.len(),
        ensures
            *final(self) == (TuiState { playlist_pane: final(self).playlist_pane, ..*old(self) }),
            final(self).playlist_pane.filter == old(self).playlist_pane.filter,
            old(self).playlist_pane.selected == 0 ==> final(self).playlist_pane == old(self).playlist_pane,
            old(self).playlist_pane.selected > 0 ==> ({
                let s = old(self).playlist_pane.selected as int;
                let items = old(self).playlist_pane.items@;
                final(self).playlist_pane.selected == s - 1
                    && final(self).playlist_pane.items@ == items.update(s, items[s - 1]).update(s - 1, items[s])
            }),
    {
        self.playlist_pane.reorder_up();
    }

    /// Moves the selected playlist item down one place.
    pub fn reorder_playlist_down(&mut self)
        ensures
            *final(self) == (TuiState { playlist_pane: final(self).playlist_pane, ..*old(self) }),
            final(self).playlist_pane.filter == old(self).playlist_pane.filter,
            !(old(self).playlist_pane.selected + 1 < old(self).playlist_pane.items@.len())
                ==> final(self).playlist_pane == old(self).playlist_pane,
            old(self).playlist_pane.selected + 1 < old(self).playlist_pane.items@.len() ==> ({
                let s = old(self).playlist_pane.selected as int;
                let items = old(self).playlist_pane.items@;
                final(self).playlist_pane.selected == s + 1
                    && final(self).playlist_pane.items@ == items.update(s, items[s + 1]).update(s + 1, items[s])
            }),
    {
        self.playlist_pane.reorder_down();
    }

    /// Adds an item built from the given parts to the playlist, unless its path is
    /// already there.
    pub fn add_to_playlist(
        &mut self,
        path: ItemPath,
        duration: Option<Duration>,
        alias: Option<String>,
        mime_type: Option<String>,
        is_virtual: bool,
    )
        ensures
            *final(self) == (TuiState { playlist_pane: PlaylistPane {
                items: final(self).playlist_pane.items, ..old(self).playlist_pane }, ..*old(self) }),
            has_path(old(self).playlist_pane.items@, path@)
                ==> final(self).playlist_pane.items == old(self).playlist_pane.items,
            !has_path(old(self).playlist_pane.items@, path@) ==> final(self).playlist_pane.items@
                == old(self).playlist_pane.items@.push(new_item(path, duration, alias, mime_type, is_virtual)),
    {
        self.playlist_pane.add(PlaylistItem {
            path,
            duration,
            alias,
            mime_type,
            is_virtual,
            playlist_count: 0,
            has_sources: true,
        });
    }

    /// Removes the selected playlist item.
    pub fn remove_from_playlist(&mut self)
        ensures
            *final(self) == (TuiState { playlist_pane: final(self).playlist_pane, ..*old(self) }),
            final(self).playlist_pane.filter == old(self).playlist_pane.filter,
            match selected_index(old(self).playlist_pane.items@, old(self).playlist_pane.filter, old(self).playlist_pane.selected as nat) {
                Some(i) => final(self).playlist_pane.items@ == old(self).playlist_pane.items@.remove(i)
                    && final(self).playlist_pane.selected as nat == clamped_selection(
                        old(self).playlist_pane.selected as nat, (old(self).playlist_pane.items@.len() - 1) as nat),
                None => final(self).playlist_pane == old(self).playlist_pane,
            },
    {
        self.playlist_pane.remove();
    }

    /// Removes the selected library item.
    pub fn remove_from_library(&mut self)
        ensures
            *final(self) == (TuiState { library_pane: final(self).library_pane, ..*old(self) }),
            final(self).library_pane.filter == old(self).library_pane.filter,
            match selected_index(old(self).library_pane.items@, old(self).library_pane.filter, old(self).library_pane.selected as nat) {
                Some(i) => final(self).library_pane.items@ == old(self).library_pane.items@.remove(i)
                    && final(self).library_pane.selected as nat == clamped_selection(
                        old(self).library_pane.selected as nat, (old(self).library_pane.items@.len() - 1) as nat),
                None => final(self).library_pane == old(self).library_pane,
            },
    {
        self.library_pane.remove();
    }

    /// Refreshes the library from the entries found on disk, leaving out the
    /// playlist's items.
    pub fn refresh_library(&mut self, entries: Vec<PlaylistItem>)
        ensures
            *final(self) == (TuiState { library_pane: final(self).library_pane, ..*old(self) }),
            final(self).library_pane.filter == old(self).library_pane.filter,
            final(self).library_pane.items@ == refreshed_items(old(self).library_pane.items@, entries@,
                item_path_views(old(self).playlist_pane.items@)),
            final(self).library_pane.selected == refreshed_selection(old(self).library_pane.selected,
                final(self).library_pane.items@.len()),
    {
        let paths = self.playlist_pane.paths();
        proof {
            assert(path_views(paths@) =~= item_path_views(self.playlist_pane.items@));
        }
        self.library_pane.refresh(entries, paths.as_slice());
    }

    /// Moves the focus to the other pane, unless that pane is empty.
    pub fn switch_pane(&mut self)
        ensures
            pane_len(*old(self), other_pane(old(self).focused_pane)) > 0 ==> *final(self) == (TuiState {
                focused_pane: other_pane(old(self).focused_pane), ..*old(self) }),
            pane_len(*old(self), other_pane(old(self).focused_pane)) == 0 ==> *final(self) == *old(self),
    {
        let target = match self.focused_pane {
            Pane::Playlist => Pane::Library,
            Pane::Library => Pane::Playlist,
        };
        let is_empty = match target {
            Pane::Playlist => self.playlist_pane.items.len() == 0,
            Pane::Library => self.library_pane.items.len() == 0,
        };
        if !is_empty {
            self.focused_pane = target;
        }
    }

    /// Whether the alias popup is open.
    pub fn is_renaming(&self) -> (r: bool)
        ensures
            r == self.rename.active,
    {
        self.rename.is_active()
    }

    /// Opens the alias popup with the alias of the selected item, if any.
    pub fn start_rename(&mut self)
        ensures
            *final(self) == (TuiState { rename: final(self).rename, ..*old(self) }),
            final(self).rename.active,
            final(self).rename.input@ == match focused_selection(*old(self)) {
                Some(it) => match it.alias {
                    Some(a) => a@,
                    None => Seq::<char>::empty(),
                },
                None => Seq::<char>::empty(),
            },
    {
        let alias: Option<&str> = match self.get_selected_item() {
            Some(item) => match &item.alias {
                Some(a) => Some(a.as_str()),
                None => None,
            },
            None => None,
        };
        let mut rename = Rename::new();
        rename.start(alias);
        self.rename = rename;
    }

    /// Closes the alias popup without submitting.
    pub fn cancel_rename(&mut self)
        ensures
            *final(self) == (TuiState { rename: final(self).rename, ..*old(self) }),
            !final(self).rename.active,
            final(self).rename.input@.len() == 0,
    {
        self.rename.cancel();
    }

    /// Types a character into the alias popup.
    pub fn push_rename_char(&mut self, c: char)
        ensures
            *final(self) == (TuiState { rename: final(self).rename, ..*old(self) }),
            final(self).rename.active == old(self).rename.active,
            final(self).rename.input@ == old(self).rename.input@.push(c),
    {
        self.rename.push_char(c);
    }

    /// Deletes the last character in the alias popup.
    pub fn pop_rename_char(&mut self)
        ensures
            *final(self) == (TuiState { rename: final(self).rename, ..*old(self) }),
            final(self).rename.active == old(self).rename.active,
            old(self).rename.input@.len() == 0 ==> final(self).rename.input@ == old(self).rename.input@,
            old(self).rename.input@.len() > 0 ==> final(self).rename.input@ == old(self).rename.input@.drop_last(),
    {
        self.rename.pop_char();
    }

    /// Whether the URL popup is open.
    pub fn is_url_input(&self) -> (r: bool)
        ensures
            r == self.url_input.active,
    {
        self.url_input.is_active()
    }

    /// Opens the URL popup with empty input.
    pub fn start_url_input(&mut self)
        ensures
            *final(self) == (TuiState { url_input: final(self).url_input, ..*old(self) }),
            final(self).url_input.active,
            final(self).url_input.input@.len() == 0,
    {
        self.url_input.start();
    }

    /// Closes the URL popup without submitting.
    pub fn cancel_url_input(&mut self)
        ensures
            *final(self) == (TuiState { url_input: final(self).url_input, ..*old(self) }),
            !final(self).url_input.active,
            final(self).url_input.input@.len() == 0,
    {
        self.url_input.cancel();
    }

    /// Types a character into the URL popup.
    pub fn push_url_char(&mut self, c: char)
        ensures
            *final(self) == (TuiState { url_input: final(self).url_input, ..*old(self) }),
            final(self).url_input.active == old(self).url_input.active,
            final(self).url_input.input@ == old(self).url_input.input@.push(c),
    {
        self.url_input.push_char(c);
    }

    /// Deletes the last character in the URL popup.
    pub fn pop_url_char(&mut self)
        ensures
            *final(self) == (TuiState { url_input: final(self).url_input, ..*old(self) }),
            final(self).url_input.active == old(self).url_input.active,
            old(self).url_input.input@.len() == 0 ==> final(self).url_input.input@ == old(self).url_input.input@,
            old(self).url_input.input@.len() > 0 ==> final(self).url_input.input@ == old(self).url_input.input@.drop_last(),
    {
        self.url_input.pop_char();
    }

    /// The item selected in the focused pane.
    pub fn get_selected_item(&self) -> (r: Option<&PlaylistItem>)
        ensures
            match r {
                Some(it) => focused_selection(*self) == Some(*it),
                None => focused_selection(*self) is None,
            },
    {
        match self.focused_pane {
            Pane::Playlist => self.selected_playlist_item(),
            Pane::Library => self.selected_library_item(),
        }
    }

    /// The item selected in the focused pane, for changing it in place.
    pub fn get_selected_item_mut(&mut self) -> (r: Option<&mut PlaylistItem>)
        ensures
            old(self).focused_pane == Pane::Playlist ==> match selected_index(old(self).playlist_pane.items@,
                old(self).playlist_pane.filter, old(self).playlist_pane.selected as nat) {
                Some(i) => r is Some && *r->0 == old(self).playlist_pane.items@[i]
                    && *final(self) == (TuiState { playlist_pane: PlaylistPane {
                        items: final(self).playlist_pane.items, ..old(self).playlist_pane }, ..*old(self) })
                    && final(self).playlist_pane.items@ == old(self).playlist_pane.items@.update(i, *final(r->0)),
                None => r is None && *final(self) == *old(self),
            },
            old(self).focused_pane == Pane::Library ==> match selected_index(old(self).library_pane.items@,
                old(self).library_pane.filter, old(self).library_pane.selected as nat) {
                Some(i) => r is Some && *r->0 == old(self).library_pane.items@[i]
                    && *final(self) == (TuiState { library_pane: LibraryPane {
                        items: final(self).library_pane.items, ..old(self).library_pane }, ..*old(self) })
                    && final(self).library_pane.items@ == old(self).library_pane.items@.update(i, *final(r->0)),
                None => r is None && *final(self) == *old(self),
            },
    {
        match self.focused_pane {
            Pane::Playlist => self.playlist_pane.selected_item_mut(),
            Pane::Library => self.library_pane.selected_item_mut(),
        }
    }

    /// Whether a pattern is being typed in the focused pane.
    pub fn is_filtering(&self) -> (r: bool)
        ensures
            r == pane_filter(*self, self.focused_pane).active,
    {
        match self.focused_pane {
            Pane::Playlist => self.playlist_pane.filter().is_active(),
            Pane::Library => self.library_pane.filter().is_active(),
        }
    }

    /// Whether a pattern is applied in `pane`.
    pub fn has_active_filter(&self, pane: Pane) -> (r: bool)
        ensures
            r == pane_filter(*self, pane).applied is Some,
    {
        match pane {
            Pane::Playlist => self.playlist_pane.filter().has_applied(),
            Pane::Library => self.library_pane.filter().has_applied(),
        }
    }

    /// Begins typing a pattern in the focused pane.
    pub fn start_filter(&mut self)
        ensures
            *final(self) == with_pane_filter(*old(self), old(self).focused_pane, pane_filter(*final(self), old(self).focused_pane)),
            pane_filter(*final(self), old(self).focused_pane).active,
            pane_filter(*final(self), old(self).focused_pane).input@.len() == 0,
            pane_filter(*final(self), old(self).focused_pane).applied is None,
            pane_filter(*final(self), old(self).focused_pane).previous
                == pane_filter(*old(self), old(self).focused_pane).applied,
    {
        match self.focused_pane {
            Pane::Playlist => self.playlist_pane.filter_mut().start(),
            Pane::Library => self.library_pane.filter_mut().start(),
        }
    }

    /// Stops typing in the focused pane and restores its earlier pattern.
    pub fn cancel_filter(&mut self)
        ensures
            *final(self) == with_pane_filter(*old(self), old(self).focused_pane, pane_filter(*final(self), old(self).focused_pane)),
            !pane_filter(*final(self), old(self).focused_pane).active,
            pane_filter(*final(self), old(self).focused_pane).input@.len() == 0,
            pane_filter(*final(self), old(self).focused_pane).applied
                == pane_filter(*old(self), old(self).focused_pane).previous,
            pane_filter(*final(self), old(self).focused_pane).previous is None,
    {
        match self.focused_pane {
            Pane::Playlist => self.playlist_pane.filter_mut().cancel(),
            Pane::Library => self.library_pane.filter_mut().cancel(),
        }
    }

    /// Stops typing in the focused pane and applies the typed pattern.
    pub fn submit_filter(&mut self)
        ensures
            *final(self) == with_pane_filter(*old(self), old(self).focused_pane, pane_filter(*final(self), old(self).focused_pane)),
            !pane_filter(*final(self), old(self).focused_pane).active,
            pane_filter(*final(self), old(self).focused_pane).input@.len() == 0,
            pane_filter(*old(self), old(self).focused_pane).input@.len() == 0
                ==> pane_filter(*final(self), old(self).focused_pane).applied is None,
            pane_filter(*old(self), old(self).focused_pane).input@.len() > 0
                ==> pane_filter(*final(self), old(self).focused_pane).applied
                    == Some(pane_filter(*old(self), old(self).focused_pane).input),
            pane_filter(*final(self), old(self).focused_pane).previous is None,
    {
        match self.focused_pane {
            Pane::Playlist => self.playlist_pane.filter_mut().submit(),
            Pane::Library => self.library_pane.filter_mut().submit(),
        }
    }

    /// Types a character into the focused pane's filter.
    pub fn push_filter_char(&mut self, c: char)
        ensures
            *final(self) == with_pane_filter(*old(self), old(self).focused_pane, pane_filter(*final(self), old(self).focused_pane)),
            pane_filter(*final(self), old(self).focused_pane).input@
                == pane_filter(*old(self), old(self).focused_pane).input@.push(c),
            pane_filter(*final(self), old(self).focused_pane).active == pane_filter(*old(self), old(self).focused_pane).active,
            pane_filter(*final(self), old(self).focused_pane).applied == pane_filter(*old(self), old(self).focused_pane).applied,
            pane_filter(*final(self), old(self).focused_pane).previous == pane_filter(*old(self), old(self).focused_pane).previous,
    {
        match self.focused_pane {
            Pane::Playlist => self.playlist_pane.filter_mut().push_char(c),
            Pane::Library => self.library_pane.filter_mut().push_char(c),
        }
    }

    /// Deletes the last character of the focused pane's filter.
    pub fn pop_filter_char(&mut self)
        ensures
            *final(self) == with_pane_filter(*old(self), old(self).focused_pane, pane_filter(*final(self), old(self).focused_pane)),
            pane_filter(*old(self), old(self).focused_pane).input@.len() == 0
                ==> pane_filter(*final(self), old(self).focused_pane).input@ == pane_filter(*old(self), old(self).focused_pane).input@,
            pane_filter(*old(self), old(self).focused_pane).input@.len() > 0
                ==> pane_filter(*final(self), old(self).focused_pane).input@ == pane_filter(*old(self), old(self).focused_pane).input@.drop_last(),
            pane_filter(*final(self), old(self).focused_pane).active == pane_filter(*old(self), old(self).focused_pane).active,
            pane_filter(*final(self), old(self).focused_pane).applied == pane_filter(*old(self), old(self).focused_pane).applied,
            pane_filter(*final(self), old(self).focused_pane).previous == pane_filter(*old(self), old(self).focused_pane).previous,
    {
        match self.focused_pane {
            Pane::Playlist => self.playlist_pane.filter_mut().pop_char(),
            Pane::Library => self.library_pane.filter_mut().pop_char(),
        }
    }

    /// The pattern being typed in `pane`.
    pub fn get_filter_input(&self, pane: Pane) -> (r: &str)
        ensures
            r@ == pane_filter(*self, pane).input@,
    {
        match pane {
            Pane::Playlist => self.playlist_pane.filter().input(),
            Pane::Library => self.library_pane.filter().input(),
        }
    }

    /// The playlist rows shown under its filter.
    pub fn get_filtered_playlist(&self) -> (r: Vec<(usize, &PlaylistItem)>)
        ensures
            r@.len() == shown_indices(self.playlist_pane.items@, self.playlist_pane.filter).len(),
            forall|k: int|
                #![trigger r@[k]]
                0 <= k < r@.len() ==> r@[k].0 == shown_indices(self.playlist_pane.items@, self.playlist_pane.filter)[k]
                    && r@[k].0 < self.playlist_pane.items@.len()
                    && *r@[k].1 == self.playlist_pane.items@[r@[k].0 as int],
    {
        self.playlist_pane.get_filtered()
    }

    /// The library rows shown under its filter.
    pub fn get_filtered_library(&self) -> (r: Vec<(usize, &PlaylistItem)>)
        ensures
            r@.len() == shown_indices(self.library_pane.items@, self.library_pane.filter).len(),
            forall|k: int|
                #![trigger r@[k]]
                0 <= k < r@.len() ==> r@[k].0 == shown_indices(self.library_pane.items@, self.library_pane.filter)[k]
                    && r@[k].0 < self.library_pane.items@.len()
                    && *r@[k].1 == self.library_pane.items@[r@[k].0 as int],
    {
        self.library_pane.get_filtered()
    }

    /// Shows an error in the popup.
    pub fn show_error(&mut self, message: String)
        ensures
            *final(self) == (TuiState { error_popup: final(self).error_popup, ..*old(self) }),
            final(self).error_popup.active,
            final(self).error_popup.message == message,
    {
        self.error_popup.show(message);
    }

    /// Hides the error popup.
    pub fn dismiss_error(&mut self)
        ensures
            *final(self) == (TuiState { error_popup: final(self).error_popup, ..*old(self) }),
            !final(self).error_popup.active,
            final(self).error_popup.message@.len() == 0,
    {
        self.error_popup.dismiss();
    }

    /// Whether the error popup is shown.
    pub fn is_showing_error(&self) -> (r: bool)
        ensures
            r == self.error_popup.active,
    {
        self.error_popup.is_active()
    }

    /// Passes a key to the first component that wants it: the error popup, then the
    /// alias popup, then the URL popup, then the focused pane. A result that is not
    /// consumed means the key is left for the global key bindings.
    pub fn handle_component_key(&mut self, key: KeyEvent) -> (r: HandleKeyResult)
        ensures
            old(self).error_popup.active ==> r.status == KeyStatus::Consumed && r.actions@.len() == 0
                && *final(self) == (TuiState { error_popup: final(self).error_popup, ..*old(self) })
                && !final(self).error_popup.active && final(self).error_popup.message@.len() == 0,
            !old(self).error_popup.active && old(self).rename.active
                ==> *final(self) == (TuiState { rename: final(self).rename, ..*old(self) })
                && rename_key_handled(old(self).rename, final(self).rename, key, r),
            !old(self).error_popup.active && !old(self).rename.active && old(self).url_input.active
                ==> *final(self) == (TuiState { url_input: final(self).url_input, ..*old(self) })
                && url_key_handled(old(self).url_input, final(self).url_input, key, r),
            !old(self).error_popup.active && !old(self).rename.active && !old(self).url_input.active
                ==> *final(self) == with_pane_filter(*old(self), old(self).focused_pane,
                    pane_filter(*final(self), old(self).focused_pane))
                && filter_key_handled(pane_filter(*old(self), old(self).focused_pane),
                    pane_filter(*final(self), old(self).focused_pane), key, r),
    {
        if self.error_popup.is_active() {
            return self.error_popup.handle_key(key);
        }
        if self.rename.is_active() {
            return self.rename.handle_key(key);
        }
        if self.url_input.is_active() {
            return self.url_input.handle_key(key);
        }
        match self.focused_pane {
            Pane::Playlist => self.playlist_pane.handle_key(key),
            Pane::Library => self.library_pane.handle_key(key),
        }
    }
}

impl Default for TuiState {
    fn default() -> (s: TuiState)
        ensures
            s.playlist_pane.items@.len() == 0,
            s.library_pane.items@.len() == 0,
            s.focused_pane == Pane::Playlist,
            s.status_bar.shown() is None,
            !s.rename.active,
            !s.error_popup.active,
            !s.refreshing,
    {
        TuiState::new()
    }
}

} // verus!
