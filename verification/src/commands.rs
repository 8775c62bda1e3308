//! Decisions taken when the interface starts or reloads: the initial focus, and which
//! items are marked as having sources.
use vstd::prelude::*;
use crate::domain::{Pane, PlaylistItem, sort_by_path, sorted_by_path};
use crate::library_pane::{item_path_views, refreshed_items};
use crate::library_pane::LibraryPane;
use crate::playlist_pane::PlaylistPane;
use crate::state::{TuiState, refreshed_selection};

verus! {

/// Focuses the library when only it has items, the playlist when only it has items;
/// otherwise the focus stays where it is.
pub fn set_initial_focus(tui_state: &mut TuiState)
    ensures
        *final(tui_state) == (TuiState {
            focused_pane: if old(tui_state).playlist_pane.items@.len() == 0
                && old(tui_state).library_pane.items@.len() > 0 {
                Pane::Library
            } else if old(tui_state).library_pane.items@.len() == 0
                && old(tui_state).playlist_pane.items@.len() > 0 {
                Pane::Playlist
            } else {
                old(tui_state).focused_pane
            },
            ..*old(tui_state)
        }),
{
    let playlist_empty = tui_state.playlist_pane.items.len() == 0;
    let library_empty = tui_state.library_pane.items.len() == 0;
    if playlist_empty && !library_empty {
        tui_state.focused_pane = Pane::Library;
    } else if library_empty && !playlist_empty {
        tui_state.focused_pane = Pane::Playlist;
    }
}

/// The path texts of the file items of `items`, in order (URL entries have no sources).
pub open spec fn file_texts(items: Seq<PlaylistItem>) -> Seq<Seq<char>>
    decreases items.len(),
{
    if items.len() == 0 {
        Seq::empty()
    } else {
        let p = file_texts(items.drop_last());
        if !items.last().path@.0 {
            p.push(items.last().path@.1)
        } else {
            p
        }
    }
}

fn push_file_texts(out: &mut Vec<String>, items: &Vec<PlaylistItem>)
    ensures
        final(out)@.map_values(|s: String| s@) == old(out)@.map_values(|s: String| s@) + file_texts(items@),
{
    let ghost start = out@.map_values(|s: String| s@);
    let mut i: usize = 0;
    while i < items.len()
        invariant
            i <= items@.len(),
            out@.map_values(|s: String| s@) == start + file_texts(items@.take(i as int)),
        decreases items@.len() - i,
    {
        let ghost before = out@;
        proof {
            assert(items@.take(i + 1).drop_last() =~= items@.take(i as int));
            assert(items@.take(i + 1).last() == items@[i as int]);
        }
        match items[i].path.as_file() {
            Some(p) => {
                out.push(p.clone());
                assert(out@.map_values(|s: String| s@) =~= before.map_values(|s: String| s@).push(p@));
            },
            None => {},
        }
        i = i + 1;
    }
    assert(items@.take(items@.len() as int) =~= items@);
}

/// The file paths of the playlist, in order: those the application offers to mpv.
pub fn playlist_file_paths(tui_state: &TuiState) -> (r: Vec<String>)
    ensures
        r@.map_values(|s: String| s@) == file_texts(tui_state.playlist_pane.items@),
{
    let mut r: Vec<String> = Vec::new();
    assert(r@.map_values(|s: String| s@) =~= Seq::<Seq<char>>::empty());
    push_file_texts(&mut r, &tui_state.playlist_pane.items);
    assert(Seq::<Seq<char>>::empty() + file_texts(tui_state.playlist_pane.items@) =~= file_texts(
        tui_state.playlist_pane.items@,
    ));
    r
}

/// The paths whose sources are looked up: the file paths of the playlist, then those
/// of the library.
pub fn sources_query_paths(tui_state: &TuiState) -> (r: Vec<String>)
    ensures
        r@.map_values(|s: String| s@) == file_texts(tui_state.playlist_pane.items@) + file_texts(
            tui_state.library_pane.items@,
        ),
{
    let mut r: Vec<String> = Vec::new();
    assert(r@.map_values(|s: String| s@) =~= Seq::<Seq<char>>::empty());
    push_file_texts(&mut r, &tui_state.playlist_pane.items);
    push_file_texts(&mut r, &tui_state.library_pane.items);
    assert(Seq::<Seq<char>>::empty() + file_texts(tui_state.playlist_pane.items@) =~= file_texts(
        tui_state.playlist_pane.items@,
    ));
    r
}

/// A source of an item: a page the item's notes draw on.
#[derive(Clone, Debug)]
pub struct Source {
    pub id: i64,
    pub source_url: String,
    pub label: Option<String>,
}

/// Whether the lookup's answer gives the path text `t` at least one source; the answer
/// lists paths with their sources.
pub open spec fn has_sources_in(answer: Seq<(String, Vec<Source>)>, t: Seq<char>) -> bool {
    exists|k: int| 0 <= k < answer.len() && (#[trigger] answer[k]).0@ == t && answer[k].1@.len() > 0
}

/// `items` with each file item marked by whether the answer gives it sources; URL
/// entries keep their mark.
pub open spec fn marked(items: Seq<PlaylistItem>, answer: Seq<(String, Vec<Source>)>) -> Seq<PlaylistItem> {
    Seq::new(
        items.len(),
        |i: int|
            if items[i].path@.0 {
                items[i]
            } else {
                PlaylistItem { has_sources: has_sources_in(answer, items[i].path@.1), ..items[i] }
            },
    )
}

fn sources_found(answer: &[(String, Vec<Source>)], t: &String) -> (r: bool)
    ensures
        r == has_sources_in(answer@, t@),
{
    let mut k: usize = 0;
    while k < answer.len()
        invariant
            k <= answer@.len(),
            forall|j: int| 0 <= j < k ==> !((#[trigger] answer@[j]).0@ == t@ && answer@[j].1@.len() > 0),
        decreases answer@.len() - k,
    {
        if answer[k].1.len() > 0 && answer[k].0 == *t {
            return true;
        }
        k = k + 1;
    }
    false
}

fn mark_items(items: &mut Vec<PlaylistItem>, answer: &[(String, Vec<Source>)])
    ensures
        final(items)@ == marked(old(items)@, answer@),
{
    let ghost orig = items@;
    let mut src: Vec<PlaylistItem> = Vec::new();
    std::mem::swap(&mut src, items);
    let mut out: Vec<PlaylistItem> = Vec::new();
    let ghost mut done: int = 0;
    assert(src@.skip(0) =~= src@);
    while src.len() > 0
        invariant
            0 <= done <= orig.len(),
            src@ == orig.skip(done),
            out@ == marked(orig, answer@).take(done),
        decreases src@.len(),
    {
        let ghost src_before = src@;
        let mut it = src.remove(0);
        proof {
            assert(src@ =~= src_before.drop_first());
            assert(it == orig[done]);
        }
        let found = match it.path.as_file() {
            Some(p) => Some(sources_found(answer, p)),
            None => None,
        };
        match found {
            Some(f) => {
                it.has_sources = f;
            },
            None => {},
        }
        out.push(it);
        proof {
            assert(out@ =~= marked(orig, answer@).take(done + 1));
            assert(orig.skip(done + 1) =~= orig.skip(done).drop_first());
            done = done + 1;
        }
    }
    assert(marked(orig, answer@).take(done) =~= marked(orig, answer@));
    *items = out;
}

/// Marks every file item of both panes by whether the lookup's answer gives it
/// sources (an empty answer, as after a failed lookup, marks none); URL entries and
/// everything else stay as they were.
pub fn update_sources_status(tui_state: &mut TuiState, answer: &[(String, Vec<Source>)])
    ensures
        *final(tui_state) == (TuiState {
            playlist_pane: PlaylistPane { items: final(tui_state).playlist_pane.items, ..old(tui_state).playlist_pane },
            library_pane: LibraryPane { items: final(tui_state).library_pane.items, ..old(tui_state).library_pane },
            ..*old(tui_state)
        }),
        final(tui_state).playlist_pane.items@ == marked(old(tui_state).playlist_pane.items@, answer@),
        final(tui_state).library_pane.items@ == marked(old(tui_state).library_pane.items@, answer@),
{
    mark_items(&mut tui_state.playlist_pane.items, answer);
    mark_items(&mut tui_state.library_pane.items, answer);
}

/// Puts a loaded playlist in place: the playlist items replace the playlist, the
/// library is refreshed from the entries found on disk (leaving out the playlist's
/// items; `None` when listing them failed, which leaves the library's items), the
/// library's URL entries are added, and the library is sorted by path.
pub fn load_playlist_into(
    tui_state: &mut TuiState,
    playlist_items: Vec<PlaylistItem>,
    entries: Option<Vec<PlaylistItem>>,
    virtual_items: Vec<PlaylistItem>,
)
    ensures
        final(tui_state).playlist_pane.items@ == playlist_items@,
        final(tui_state).playlist_pane.selected == old(tui_state).playlist_pane.selected,
        final(tui_state).playlist_pane.filter == old(tui_state).playlist_pane.filter,
        final(tui_state).library_pane.items@ == sorted_by_path(
            match entries {
                Some(e) => refreshed_items(old(tui_state).library_pane.items@, e@, item_path_views(playlist_items@)),
                None => old(tui_state).library_pane.items@,
            } + virtual_items@,
        ),
        final(tui_state).library_pane.selected == match entries {
            Some(e) => refreshed_selection(old(tui_state).library_pane.selected,
                refreshed_items(old(tui_state).library_pane.items@, e@, item_path_views(playlist_items@)).len()),
            None => old(tui_state).library_pane.selected,
        },
        *final(tui_state) == (TuiState {
            playlist_pane: PlaylistPane { items: final(tui_state).playlist_pane.items, ..old(tui_state).playlist_pane },
            library_pane: LibraryPane {
                items: final(tui_state).library_pane.items,
                selected: final(tui_state).library_pane.selected,
                ..old(tui_state).library_pane
            },
            ..*old(tui_state)
        }),
{
    tui_state.playlist_pane.items = playlist_items;
    match entries {
        Some(e) => tui_state.refresh_library(e),
        None => {},
    }
    let mut extra = virtual_items;
    tui_state.library_pane.items.append(&mut extra);
    sort_by_path(&mut tui_state.library_pane.items);
}

} // verus!
