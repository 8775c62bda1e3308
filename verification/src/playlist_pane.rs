//! The playlist pane: the items queued for playback, in order.
use vstd::prelude::*;
use crate::common::{
    clamped_selection, moved_down, moved_up, resolve_selected, selected_index,
    selection_after_down, selection_after_up, shown_indices, shown_rows,
};
use crate::domain::{ItemPath, PlaylistItem};
use crate::event::{Component, HandleKeyResult, KeyEvent};
use crate::filter::{Filter, filter_key_handled};
use crate::library_pane::{contains_path, has_path};

verus! {

/// The items and selection after the selected item at `sel` trades places with the
/// one above it; unchanged on the first row.
pub open spec fn reordered_up(items: Seq<PlaylistItem>, sel: nat) -> (Seq<PlaylistItem>, nat) {
    if sel == 0 {
        (items, sel)
    } else {
        (items.update(sel as int, items[sel - 1]).update(sel - 1, items[sel as int]), (sel - 1) as nat)
    }
}

/// The items and selection after the selected item at `sel` trades places with the
/// one below it; unchanged on the last row or past it.
pub open spec fn reordered_down(items: Seq<PlaylistItem>, sel: nat) -> (Seq<PlaylistItem>, nat) {
    if sel + 1 < items.len() {
        (items.update(sel as int, items[sel + 1int]).update(sel + 1int, items[sel as int]), sel + 1)
    } else {
        (items, sel)
    }
}

/// The playlist pane: its items in playback order, the selected row and its filter.
#[derive(Clone, Debug)]
pub struct PlaylistPane {
    /// The playlist, in playback order.
    pub items: Vec<PlaylistItem>,
    /// The selected row.
    pub selected: usize,
    /// The pane's filter.
    pub filter: Filter,
}

impl PlaylistPane {
    /// An empty pane with the first row selected and no filter.
    pub fn new() -> (p: PlaylistPane)
        ensures
            p.items@.len() == 0,
            p.selected == 0,
            !p.filter.active,
            p.filter.input@.len() == 0,
            p.filter.applied is None,
            p.filter.previous is None,
    {
        PlaylistPane { items: Vec::new(), selected: 0, filter: Filter::new() }
    }

    /// Moves the selection up one row, staying on the first row.
    pub fn move_up(&mut self)
        ensures
            final(self).items == old(self).items,
            final(self).filter == old(self).filter,
            final(self).selected == selection_after_up(old(self).items@, old(self).filter, old(self).selected as nat),
    {
        self.selected = moved_up(&self.items, &self.filter, self.selected);
    }

    /// Moves the selection down one row, staying on the last row.
    pub fn move_down(&mut self)
        ensures
            final(self).items == old(self).items,
            final(self).filter == old(self).filter,
            final(self).selected == selection_after_down(old(self).items@, old(self).filter, old(self).selected as nat),
    {
        self.selected = moved_down(&self.items, &self.filter, self.selected);
    }

    /// Removes the selected item, then keeps the selection within the list.
    pub fn remove(&mut self)
        ensures
            final(self).filter == old(self).filter,
            match selected_index(old(self).items@, old(self).filter, old(self).selected as nat) {
                Some(i) => final(self).items@ == old(self).items@.remove(i)
                    && final(self).selected as nat == clamped_selection(old(self).selected as nat, (old(self).items@.len() - 1) as nat),
                None => final(self).items == old(self).items && final(self).selected == old(self).selected,
            },
    {
        let idx = resolve_selected(&self.items, &self.filter, self.selected);
        match idx {
            Some(i) => {
                self.items.remove(i);
                if self.selected >= self.items.len() && self.items.len() > 0 {
                    self.selected = self.items.len() - 1;
                }
            },
            None => {},
        }
    }

    /// Swaps the selected item with the one above it and follows it with the selection.
    pub fn reorder_up(&mut self)
        requires
            old(self).selected == 0 || old(self).selected < old(self).items@.len(),
        ensures
            final(self).filter == old(self).filter,
            (final(self).items@, final(self).selected as nat) == reordered_up(old(self).items@, old(self).selected as nat),
            old(self).selected == 0 ==> final(self).items == old(self).items && final(self).selected == 0,
            old(self).selected > 0 ==> final(self).selected == old(self).selected - 1
                && final(self).items@ == old(self).items@.update(
                    old(self).selected as int,
                    old(self).items@[old(self).selected - 1],
                ).update(old(self).selected - 1, old(self).items@[old(self).selected as int]),
    {
        if self.selected > 0 {
            let item = self.items.remove(self.selected);
            self.items.insert(self.selected - 1, item);
            self.selected = self.selected - 1;
            assert(self.items@ =~= old(self).items@.update(
                old(self).selected as int,
                old(self).items@[old(self).selected - 1],
            ).update(old(self).selected - 1, old(self).items@[old(self).selected as int]));
        }
    }

    /// Swaps the selected item with the one below it and follows it with the selection.
    pub fn reorder_down(&mut self)
        ensures
            final(self).filter == old(self).filter,
            (final(self).items@, final(self).selected as nat) == reordered_down(old(self).items@, old(self).selected as nat),
            old(self).selected + 1 < old(self).items@.len() ==> final(self).selected == old(self).selected + 1
                && final(self).items@ == old(self).items@.update(
                    old(self).selected as int,
                    old(self).items@[old(self).selected + 1],
                ).update(old(self).selected + 1, old(self).items@[old(self).selected as int]),
            !(old(self).selected + 1 < old(self).items@.len()) ==> final(self).items == old(self).items
                && final(self).selected == old(self).selected,
    {
        if self.items.len() > 0 && self.selected < self.items.len() - 1 {
            let item = self.items.remove(self.selected);
            self.items.insert(self.selected + 1, item);
            self.selected = self.selected + 1;
            assert(self.items@ =~= old(self).items@.update(
                old(self).selected as int,
                old(self).items@[old(self).selected + 1],
            ).update(old(self).selected + 1, old(self).items@[old(self).selected as int]));
        }
    }

    /// Appends `item` unless an item with the same path is already listed.
    pub fn add(&mut self, item: PlaylistItem)
        ensures
            final(self).filter == old(self).filter,
            final(self).selected == old(self).selected,
            has_path(old(self).items@, item.path@) ==> final(self).items == old(self).items,
            !has_path(old(self).items@, item.path@) ==> final(self).items@ == old(self).items@.push(item),
    {
        if !contains_path(&self.items, &item.path) {
            self.items.push(item);
        }
    }

    /// The paths of the items, in order.
    pub fn paths(&self) -> (r: Vec<&ItemPath>)
        ensures
            r@.len() == self.items@.len(),
            forall|k: int| #![trigger r@[k]] 0 <= k < r@.len() ==> *r@[k] == self.items@[k].path,
    {
        let mut r: Vec<&ItemPath> = Vec::new();
        let mut i: usize = 0;
        while i < self.items.len()
            invariant
                i <= self.items@.len(),
                r@.len() == i,
                forall|k: int| #![trigger r@[k]] 0 <= k < i ==> *r@[k] == self.items@[k].path,
            decreases self.items@.len() - i,
        {
            r.push(&self.items[i].path);
            i = i + 1;
        }
        r
    }

    /// The selected item, if the selection is within the shown rows.
    pub fn selected_item(&self) -> (r: Option<&PlaylistItem>)
        ensures
            match selected_index(self.items@, self.filter, self.selected as nat) {
                Some(i) => r == Some(&self.items@[i]),
                None => r is None,
            },
    {
        match resolve_selected(&self.items, &self.filter, self.selected) {
            Some(i) => Some(&self.items[i]),
            None => None,
        }
    }

    /// The selected item, for changing it in place.
    pub fn selected_item_mut(&mut self) -> (r: Option<&mut PlaylistItem>)
        ensures
            match selected_index(old(self).items@, old(self).filter, old(self).selected as nat) {
                Some(i) => r is Some && *r->0 == old(self).items@[i]
                    && final(self).items@ == old(self).items@.update(i, *final(r->0))
                    && final(self).selected == old(self).selected
                    && final(self).filter == old(self).filter,
                None => r is None && *final(self) == *old(self),
            },
    {
        match resolve_selected(&self.items, &self.filter, self.selected) {
            Some(i) => Some(&mut self.items[i]),
            None => None,
        }
    }

    /// The rows shown under the pane's filter, each with its index in `items`.
    pub fn get_filtered(&self) -> (r: Vec<(usize, &PlaylistItem)>)
        ensures
            r@.len() == shown_indices(self.items@, self.filter).len(),
            forall|k: int|
                #![trigger r@[k]]
                0 <= k < r@.len() ==> r@[k].0 == shown_indices(self.items@, self.filter)[k]
                    && r@[k].0 < self.items@.len() && *r@[k].1 == self.items@[r@[k].0 as int],
    {
        shown_rows(&self.items, &self.filter)
    }

    /// The pane's filter.
    pub fn filter(&self) -> (r: &Filter)
        ensures
            *r == self.filter,
    {
        &self.filter
    }

    /// The pane's filter, for changing it.
    pub fn filter_mut(&mut self) -> (r: &mut Filter)
        ensures
            *r == old(self).filter,
            final(self).filter == *final(r),
            final(self).items == old(self).items,
            final(self).selected == old(self).selected,
    {
        &mut self.filter
    }
}

impl Default for PlaylistPane {
    fn default() -> (p: PlaylistPane)
        ensures
            p.items@.len() == 0,
            p.selected == 0,
            !p.filter.active,
            p.filter.applied is None,
    {
        PlaylistPane::new()
    }
}

impl Component for PlaylistPane {
    fn is_active(&self) -> (r: bool)
        ensures
            r,
    {
        true
    }

    /// Keys go to the filter while a pattern is typed; otherwise they are ignored.
    fn handle_key(&mut self, key: KeyEvent) -> (r: HandleKeyResult)
        ensures
            final(self).items == old(self).items,
            final(self).selected == old(self).selected,
            filter_key_handled(old(self).filter, final(self).filter, key, r),
    {
        if self.filter.is_active() {
            return self.filter.handle_key(key);
        }
        HandleKeyResult::ignored()
    }
}

} // verus!
