//! The library pane: files available to add to the playlist, and URL entries.
use vstd::prelude::*;
use crate::common::{
    clamped_selection, moved_down, moved_up, resolve_selected, selected_index,
    selection_after_down, selection_after_up, shown_indices, shown_rows,
};
use crate::domain::{ItemPath, PlaylistItem, sort_by_path, sorted_by_path};
use crate::event::{Component, HandleKeyResult, KeyEvent};
use crate::filter::{Filter, filter_key_handled};

verus! {

/// Whether some item of `s` has the path `p`.
pub open spec fn has_path(s: Seq<PlaylistItem>, p: (bool, Seq<char>)) -> bool {
    exists|k: int| 0 <= k < s.len() && #[trigger] s[k].path@ == p
}

/// The views of a list of paths.
pub open spec fn path_views(ps: Seq<&ItemPath>) -> Seq<(bool, Seq<char>)> {
    ps.map_values(|p: &ItemPath| p@)
}

/// The views of the paths of a list of items.
pub open spec fn item_path_views(items: Seq<PlaylistItem>) -> Seq<(bool, Seq<char>)> {
    items.map_values(|it: PlaylistItem| it.path@)
}

/// Whether a refresh keeps an item: a URL entry, or a file still found on disk.
pub open spec fn kept_by(entries: Seq<PlaylistItem>) -> spec_fn(PlaylistItem) -> bool {
    |it: PlaylistItem| it.is_virtual || has_path(entries, it.path@)
}

/// Whether a refresh adds an entry: neither in the playlist nor already kept.
pub open spec fn added_by(listed: Seq<(bool, Seq<char>)>, kept: Seq<PlaylistItem>) -> spec_fn(PlaylistItem) -> bool {
    |e: PlaylistItem| !listed.contains(e.path@) && !has_path(kept, e.path@)
}

/// The items a refresh keeps.
pub open spec fn kept_on_refresh(items: Seq<PlaylistItem>, entries: Seq<PlaylistItem>) -> Seq<PlaylistItem> {
    items.filter(kept_by(entries))
}

/// The entries a refresh adds: those neither in the playlist nor already kept.
pub open spec fn added_on_refresh(
    entries: Seq<PlaylistItem>,
    listed: Seq<(bool, Seq<char>)>,
    kept: Seq<PlaylistItem>,
) -> Seq<PlaylistItem> {
    entries.filter(added_by(listed, kept))
}

/// The library after a refresh: kept items and added entries, sorted by path.
pub open spec fn refreshed_items(
    items: Seq<PlaylistItem>,
    entries: Seq<PlaylistItem>,
    listed: Seq<(bool, Seq<char>)>,
) -> Seq<PlaylistItem> {
    let kept = kept_on_refresh(items, entries);
    sorted_by_path(kept + added_on_refresh(entries, listed, kept))
}

/// Whether some item of `s` has the path `p`.
pub fn contains_path(s: &Vec<PlaylistItem>, p: &ItemPath) -> (r: bool)
    ensures
        r == has_path(s@, p@),
{
    let mut i: usize = 0;
    while i < s.len()
        invariant
            i <= s@.len(),
            forall|k: int| 0 <= k < i ==> #[trigger] s@[k].path@ != p@,
        decreases s@.len() - i,
    {
        if s[i].path.same_as(p) {
            return true;
        }
        i = i + 1;
    }
    false
}

/// Whether `p` is one of the paths `ps`.
pub fn path_listed(ps: &[&ItemPath], p: &ItemPath) -> (r: bool)
    ensures
        r == path_views(ps@).contains(p@),
{
    let mut i: usize = 0;
    while i < ps.len()
        invariant
            i <= ps@.len(),
            forall|k: int| 0 <= k < i ==> #[trigger] ps@[k]@ != p@,
        decreases ps@.len() - i,
    {
        if ps[i].same_as(p) {
            assert(path_views(ps@)[i as int] == p@);
            return true;
        }
        i = i + 1;
    }
    assert(!path_views(ps@).contains(p@)) by {
        if path_views(ps@).contains(p@) {
            let k = choose|k: int| 0 <= k < path_views(ps@).len() && path_views(ps@)[k] == p@;
            assert(ps@[k]@ == p@);
        }
    }
    false
}

/// The library pane: its items, the selected row and its filter.
#[derive(Clone, Debug)]
pub struct LibraryPane {
    /// Available items, excluding those in the playlist.
    pub items: Vec<PlaylistItem>,
    /// The selected row.
    pub selected: usize,
    /// The pane's filter.
    pub filter: Filter,
}

impl LibraryPane {
    /// An empty pane with the first row selected and no filter.
    pub fn new() -> (p: LibraryPane)
        ensures
            p.items@.len() == 0,
            p.selected == 0,
            !p.filter.active,
            p.filter.input@.len() == 0,
            p.filter.applied is None,
            p.filter.previous is None,
    {
        LibraryPane { items: Vec::new(), selected: 0, filter: Filter::new() }
    }

    /// Moves the selection up one row, staying on the first row.
    pub fn move_up(&mut self)
        ensures
            final(self).items == old(self).items,
            final(self).filter == old(self).filter,
            final(self).selected == selection_after_up(old(self).items@, old(self).filter, old(self).selected as nat),
    {
        self.selected = moved_up(&self.items, &self.filter, self.selected);
    }

    /// Moves the selection down one row, staying on the last row.
    pub fn move_down(&mut self)
        ensures
            final(self).items == old(self).items,
            final(self).filter == old(self).filter,
            final(self).selected == selection_after_down(old(self).items@, old(self).filter, old(self).selected as nat),
    {
        self.selected = moved_down(&self.items, &self.filter, self.selected);
    }

    /// Removes the selected item, then keeps the selection within the list.
    pub fn remove(&mut self)
        ensures
            final(self).filter == old(self).filter,
            match selected_index(old(self).items@, old(self).filter, old(self).selected as nat) {
                Some(i) => final(self).items@ == old(self).items@.remove(i)
                    && final(self).selected as nat == clamped_selection(old(self).selected as nat, (old(self).items@.len() - 1) as nat),
                None => final(self).items == old(self).items && final(self).selected == old(self).selected,
            },
    {
        let idx = resolve_selected(&self.items, &self.filter, self.selected);
        match idx {
            Some(i) => {
                self.items.remove(i);
                if self.selected >= self.items.len() && self.items.len() > 0 {
                    self.selected = self.items.len() - 1;
                }
            },
            None => {},
        }
    }

    /// Replaces the file items with the entries found on disk: keeps URL entries and
    /// files still present, adds entries that are neither in the playlist nor already
    /// listed, sorts by path, and keeps the selection within the list.
    pub fn refresh(&mut self, entries: Vec<PlaylistItem>, playlist_paths: &[&ItemPath])
        ensures
            final(self).filter == old(self).filter,
            final(self).items@ == refreshed_items(old(self).items@, entries@, path_views(playlist_paths@)),
            final(self).items@.len() == 0 ==> final(self).selected == 0,
            final(self).items@.len() > 0 ==> final(self).selected == if old(self).selected
                >= final(self).items@.len() {
                (final(self).items@.len() - 1) as usize
            } else {
                old(self).selected
            },
    {
        let ghost orig = self.items@;
        let ghost ents = entries@;
        let ghost keep_pred = kept_by(ents);
        let mut src: Vec<PlaylistItem> = Vec::new();
        std::mem::swap(&mut src, &mut self.items);
        let mut kept: Vec<PlaylistItem> = Vec::new();
        let ghost mut consumed: int = 0;
        assert(orig.take(0) =~= Seq::<PlaylistItem>::empty());
        assert(src@.skip(0) =~= src@);
        assert(orig.take(0).filter(keep_pred) =~= Seq::<PlaylistItem>::empty()) by {
            reveal(Seq::filter);
        }
        while src.len() > 0
            invariant
                0 <= consumed <= orig.len(),
                src@ == orig.skip(consumed),
                entries@ == ents,
                keep_pred == kept_by(ents),
                kept@ == orig.take(consumed).filter(keep_pred),
            decreases src@.len(),
        {
            let x = src.remove(0);
            proof {
                assert(orig.take(consumed + 1).drop_last() =~= orig.take(consumed));
                assert(orig.take(consumed + 1).last() == x);
            }
            let keep = x.is_virtual || contains_path(&entries, &x.path);
            assert(keep == keep_pred(x));
            if keep {
                kept.push(x);
            }
            proof {
                let t = orig.take(consumed + 1);
                reveal(Seq::filter);
                assert(t.filter(keep_pred) == (if keep_pred(t.last()) {
                    t.drop_last().filter(keep_pred).push(t.last())
                } else {
                    t.drop_last().filter(keep_pred)
                }));
                consumed = consumed + 1;
                assert(src@ =~= orig.skip(consumed));
            }
        }
        assert(orig.take(consumed) =~= orig);
        let ghost kept_view = kept@;
        let ghost add_pred = added_by(path_views(playlist_paths@), kept_view);
        let mut added: Vec<PlaylistItem> = Vec::new();
        let mut rest = entries;
        let ghost mut used: int = 0;
        assert(ents.take(0) =~= Seq::<PlaylistItem>::empty());
        assert(rest@.skip(0) =~= rest@);
        assert(ents.take(0).filter(add_pred) =~= Seq::<PlaylistItem>::empty()) by {
            reveal(Seq::filter);
        }
        while rest.len() > 0
            invariant
                0 <= used <= ents.len(),
                rest@ == ents.skip(used),
                kept@ == kept_view,
                add_pred == added_by(path_views(playlist_paths@), kept_view),
                added@ == ents.take(used).filter(add_pred),
            decreases rest@.len(),
        {
            let e = rest.remove(0);
            proof {
                assert(ents.take(used + 1).drop_last() =~= ents.take(used));
                assert(ents.take(used + 1).last() == e);
            }
            let add = !path_listed(playlist_paths, &e.path) && !contains_path(&kept, &e.path);
            assert(add == add_pred(e));
            if add {
                added.push(e);
            }
            proof {
                let t = ents.take(used + 1);
                reveal(Seq::filter);
                assert(t.filter(add_pred) == (if add_pred(t.last()) {
                    t.drop_last().filter(add_pred).push(t.last())
                } else {
                    t.drop_last().filter(add_pred)
                }));
                used = used + 1;
                assert(rest@ =~= ents.skip(used));
            }
        }
        assert(ents.take(used) =~= ents);
        kept.append(&mut added);
        sort_by_path(&mut kept);
        self.items = kept;
        if self.items.len() == 0 {
            self.selected = 0;
        } else if self.selected >= self.items.len() {
            self.selected = self.items.len() - 1;
        }
    }

    /// The selected item, if the selection is within the shown rows.
    pub fn selected_item(&self) -> (r: Option<&PlaylistItem>)
        ensures
            match selected_index(self.items@, self.filter, self.selected as nat) {
                Some(i) => r == Some(&self.items@[i]),
                None => r is None,
            },
    {
        match resolve_selected(&self.items, &self.filter, self.selected) {
            Some(i) => Some(&self.items[i]),
            None => None,
        }
    }

    /// The selected item, for changing it in place.
    pub fn selected_item_mut(&mut self) -> (r: Option<&mut PlaylistItem>)
        ensures
            match selected_index(old(self).items@, old(self).filter, old(self).selected as nat) {
                Some(i) => r is Some && *r->0 == old(self).items@[i]
                    && final(self).items@ == old(self).items@.update(i, *final(r->0))
                    && final(self).selected == old(self).selected
                    && final(self).filter == old(self).filter,
                None => r is None && *final(self) == *old(self),
            },
    {
        match resolve_selected(&self.items, &self.filter, self.selected) {
            Some(i) => Some(&mut self.items[i]),
            None => None,
        }
    }

    /// The rows shown under the pane's filter, each with its index in `items`.
    pub fn get_filtered(&self) -> (r: Vec<(usize, &PlaylistItem)>)
        ensures
            r@.len() == shown_indices(self.items@, self.filter).len(),
            forall|k: int|
                #![trigger r@[k]]
                0 <= k < r@.len() ==> r@[k].0 == shown_indices(self.items@, self.filter)[k]
                    && r@[k].0 < self.items@.len() && *r@[k].1 == self.items@[r@[k].0 as int],
    {
        shown_rows(&self.items, &self.filter)
    }

    /// The pane's filter.
    pub fn filter(&self) -> (r: &Filter)
        ensures
            *r == self.filter,
    {
        &self.filter
    }

    /// The pane's filter, for changing it.
    pub fn filter_mut(&mut self) -> (r: &mut Filter)
        ensures
            *r == old(self).filter,
            final(self).filter == *final(r),
            final(self).items == old(self).items,
            final(self).selected == old(self).selected,
    {
        &mut self.filter
    }
}

impl Default for LibraryPane {
    fn default() -> (p: LibraryPane)
        ensures
            p.items@.len() == 0,
            p.selected == 0,
            !p.filter.active,
            p.filter.applied is None,
    {
        LibraryPane::new()
    }
}

impl Component for LibraryPane {
    fn is_active(&self) -> (r: bool)
        ensures
            r,
    {
        true
    }

    /// Keys go to the filter while a pattern is typed; otherwise they are ignored.
    fn handle_key(&mut self, key: KeyEvent) -> (r: HandleKeyResult)
        ensures
            final(self).items == old(self).items,
            final(self).selected == old(self).selected,
            filter_key_handled(old(self).filter, final(self).filter, key, r),
    {
        if self.filter.is_active() {
            return self.filter.handle_key(key);
        }
        HandleKeyResult::ignored()
    }
}

} // verus!
