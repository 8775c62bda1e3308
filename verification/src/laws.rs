//! Properties that relate several operations of the library, or hold of every state
//! they reach.
use vstd::prelude::*;
use crate::common::{
    filter_engaged, fuzzy_ranking, item_score, item_scores, lemma_ranking_bounds, ranking_by_score,
    score_at, score_insert_pos, selection_after_down, selection_after_up, shown_indices,
};
use crate::domain::{chars_lt, path_insert_pos, sorted_by_path, PlaylistItem};
use crate::filter::{cancelled, edited, started, submitted, Filter};
use crate::library_pane::{
    added_by, added_on_refresh, has_path, item_path_views, kept_by, kept_on_refresh,
    refreshed_items,
};
use crate::playlist_pane::{reordered_down, reordered_up};
use crate::which_key::Key;
use crate::symlink::suffixed_text;
use crate::text::{decimal, digit_char};
use crate::which_key_layout::{
    all_lines, bindings_in, branch_lines, category_at, category_lines, column_groups, grouped,
    grouped_upto, packed, KeyCategory, LeafBinding,
};
use crate::action::{move_to_playlist_done, moved_to_library, rename_submit_done, Command, Pending, Step};
use crate::common::{base_line, count_text, item_line, opt_view};
use crate::domain::{ItemDisplayMode, Pane};
use crate::state::focused_selection;
use crate::tui_action::TuiActionResponse;
use crate::text::spaces;
use crate::common::lemma_selected_index_bounds;
use crate::playlist_data::{
    chosen_alias_row, has_workspace_alias, lemma_chosen_alias_row_exists, names_file, names_file_in,
    resolved_alias, AliasRow,
};
use crate::commands::{has_sources_in, Source};
use crate::state::{library_selection, pane_len, playlist_selection, TuiState};

verus! {

broadcast use vstd::seq_lib::group_to_multiset_ensures;

/// No two items of `s` share a path.
pub open spec fn paths_distinct(s: Seq<PlaylistItem>) -> bool {
    forall|a: int, b: int| 0 <= a < b < s.len() ==> #[trigger] s[a].path@ != #[trigger] s[b].path@
}

/// Moving an item up and then down again puts every item back where it was, and the
/// selection with it.
pub proof fn law_reorder_up_then_down(items: Seq<PlaylistItem>, sel: nat)
    requires
        0 < sel < items.len(),
    ensures
        reordered_down(reordered_up(items, sel).0, reordered_up(items, sel).1) == (items, sel),
{
    let (u, s) = reordered_up(items, sel);
    assert(reordered_down(u, s).0 =~= items);
}

/// Moving an item down and then up again puts every item back where it was, and the
/// selection with it.
pub proof fn law_reorder_down_then_up(items: Seq<PlaylistItem>, sel: nat)
    requires
        sel + 1 < items.len(),
    ensures
        reordered_up(reordered_down(items, sel).0, reordered_down(items, sel).1) == (items, sel),
{
    let (d, s) = reordered_down(items, sel);
    assert(reordered_up(d, s).0 =~= items);
}

/// Reordering never adds, drops or duplicates an item: the playlist holds the same
/// items, only in another order.
pub proof fn law_reorder_keeps_items(items: Seq<PlaylistItem>, sel: nat)
    requires
        sel < items.len(),
    ensures
        reordered_up(items, sel).0.to_multiset() == items.to_multiset(),
        reordered_down(items, sel).0.to_multiset() == items.to_multiset(),
{
    if sel > 0 {
        let a = items[sel as int];
        let b = items[sel - 1];
        let u1 = items.update(sel as int, b);
        assert(u1.to_multiset() == items.to_multiset().insert(b).remove(a));
        assert(u1[sel - 1] == b);
        assert(u1.update(sel - 1, a).to_multiset() == u1.to_multiset().insert(a).remove(b));
        assert(items.to_multiset().count(a) > 0) by {
            assert(items.contains(a));
        }
        assert(u1.update(sel - 1, a).to_multiset() =~= items.to_multiset());
    }
    if sel + 1 < items.len() {
        let a = items[sel as int];
        let b = items[sel + 1int];
        let u1 = items.update(sel as int, b);
        assert(u1.to_multiset() == items.to_multiset().insert(b).remove(a));
        assert(u1[sel + 1int] == b);
        assert(u1.update(sel + 1int, a).to_multiset() == u1.to_multiset().insert(a).remove(b));
        assert(items.to_multiset().count(a) > 0) by {
            assert(items.contains(a));
        }
        assert(u1.update(sel + 1int, a).to_multiset() =~= items.to_multiset());
    }
}

/// Adding to the playlist never lists a path twice: if no path was listed twice
/// before, none is after.
pub proof fn law_add_keeps_paths_distinct(items: Seq<PlaylistItem>, item: PlaylistItem)
    requires
        paths_distinct(items),
    ensures
        paths_distinct(if has_path(items, item.path@) { items } else { items.push(item) }),
{
    if !has_path(items, item.path@) {
        let s = items.push(item);
        assert forall|a: int, b: int| 0 <= a < b < s.len() implies #[trigger] s[a].path@ != #[trigger] s[b].path@ by {
            if b == items.len() {
                assert(s[a] == items[a]);
            } else {
                assert(s[a] == items[a] && s[b] == items[b]);
            }
        }
    }
}

/// Editing the typed pattern never touches the pattern kept aside.
proof fn lemma_edits_keep_previous(fs: Seq<Filter>, i: int)
    requires
        0 <= i < fs.len(),
        forall|j: int| 0 <= j < fs.len() - 1 ==> edited(#[trigger] fs[j], fs[j + 1]),
    ensures
        fs[i].previous == fs[0].previous,
    decreases i,
{
    if i > 0 {
        lemma_edits_keep_previous(fs, i - 1);
        assert(edited(fs[i - 1], fs[i]));
    }
}

/// Beginning a pattern, typing and erasing any characters, and then giving it up
/// leaves the pattern that applied before in effect, with nothing typed.
/// `fs` holds the filter after the start and after each edit.
pub proof fn law_filter_cancel_restores(f0: Filter, fs: Seq<Filter>, f_end: Filter)
    requires
        fs.len() > 0,
        started(f0, fs[0]),
        forall|i: int| 0 <= i < fs.len() - 1 ==> edited(#[trigger] fs[i], fs[i + 1]),
        cancelled(fs.last(), f_end),
    ensures
        f_end.applied == f0.applied,
        !f_end.active,
        f_end.input@.len() == 0,
        f_end.previous is None,
{
    lemma_edits_keep_previous(fs, fs.len() - 1);
}

/// Beginning a pattern and submitting it with nothing typed removes the filter.
pub proof fn law_filter_empty_submit_clears(f0: Filter, f1: Filter, f2: Filter)
    requires
        started(f0, f1),
        submitted(f1, f2),
    ensures
        f2.applied is None,
        !f2.active,
{
}

/// The number of rows a pane shows under filter `f`.
pub open spec fn row_count(items: Seq<PlaylistItem>, f: Filter) -> nat {
    if filter_engaged(f) {
        shown_indices(items, f).len()
    } else {
        items.len()
    }
}

/// Moving the selection up or down keeps it on a shown row.
pub proof fn law_selection_stays_on_rows(items: Seq<PlaylistItem>, f: Filter, selected: nat)
    requires
        selected < row_count(items, f),
    ensures
        selection_after_up(items, f, selected) < row_count(items, f),
        selection_after_down(items, f, selected) < row_count(items, f),
{
}

/// Typing a key and then taking it back leaves the pending keys as they were.
pub proof fn law_push_then_pop_key(keys: Seq<Key>, k: Key)
    ensures
        keys.push(k).len() > 0,
        keys.push(k).drop_last() == keys,
{
    assert(keys.push(k).drop_last() =~= keys);
}

/// Index `a` is listed before index `b` by a fuzzy ranking: a higher score first,
/// equal scores in index order.
pub open spec fn ranked_before(scores: Seq<Option<i64>>, a: int, b: int) -> bool {
    score_at(scores, a) > score_at(scores, b)
        || (score_at(scores, a) == score_at(scores, b) && a < b)
}

proof fn lemma_score_insert_pos_props(ranked: Seq<int>, scores: Seq<Option<i64>>, sc: i64)
    ensures
        score_insert_pos(ranked, scores, sc) <= ranked.len(),
        forall|k: int|
            0 <= k < score_insert_pos(ranked, scores, sc)
                ==> !(score_at(scores, #[trigger] ranked[k]) < sc),
        score_insert_pos(ranked, scores, sc) < ranked.len()
            ==> score_at(scores, ranked[score_insert_pos(ranked, scores, sc) as int]) < sc,
    decreases ranked.len(),
{
    if ranked.len() > 0 && !(score_at(scores, ranked[0]) < sc) {
        let rest = ranked.drop_first();
        lemma_score_insert_pos_props(rest, scores, sc);
        let p = score_insert_pos(ranked, scores, sc);
        assert forall|k: int| 0 <= k < p implies !(score_at(scores, #[trigger] ranked[k]) < sc) by {
            if k > 0 {
                assert(ranked[k] == rest[k - 1]);
            }
        }
        if p < ranked.len() {
            assert(ranked[p as int] == rest[p - 1]);
        }
    }
}

/// A ranking by score lists exactly the indices that have a score, each once, by
/// decreasing score, and indices with equal scores in their own order.
pub proof fn law_ranking_by_score(scores: Seq<Option<i64>>)
    ensures
        forall|k: int|
            0 <= k < ranking_by_score(scores).len() ==> 0 <= #[trigger] ranking_by_score(scores)[k]
                < scores.len(),
        forall|i: int|
            0 <= i < scores.len() ==> (ranking_by_score(scores).contains(i) <==> (#[trigger] scores[i]) is Some),
        forall|a: int, b: int|
            0 <= a < b < ranking_by_score(scores).len() ==> #[trigger] ranking_by_score(scores)[a]
                != #[trigger] ranking_by_score(scores)[b],
        forall|a: int, b: int|
            0 <= a < b < ranking_by_score(scores).len() ==> ranked_before(
                scores,
                #[trigger] ranking_by_score(scores)[a],
                #[trigger] ranking_by_score(scores)[b],
            ),
    decreases scores.len(),
{
    lemma_ranking_bounds(scores);
    let r = ranking_by_score(scores);
    if scores.len() > 0 {
        let d = scores.drop_last();
        let prev = ranking_by_score(d);
        law_ranking_by_score(d);
        let n = scores.len() - 1;
        assert forall|k: int| 0 <= k < prev.len() implies score_at(d, #[trigger] prev[k])
            == score_at(scores, prev[k]) by {
            assert(d[prev[k]] == scores[prev[k]]);
        }
        match scores[n] {
            None => {
                assert(r == prev);
                assert forall|i: int| 0 <= i < scores.len() implies (r.contains(i) <==> (#[trigger] scores[i]) is Some) by {
                    if i < n {
                        assert(d[i] == scores[i]);
                    } else if r.contains(i) {
                        let k = choose|k: int| 0 <= k < r.len() && r[k] == i;
                        assert(prev[k] < d.len());
                    }
                }
                assert forall|a: int, b: int| 0 <= a < b < r.len() implies ranked_before(
                    scores,
                    #[trigger] r[a],
                    #[trigger] r[b],
                ) by {
                    assert(ranked_before(d, prev[a], prev[b]));
                }
            },
            Some(sc) => {
                lemma_score_insert_pos_props(prev, scores, sc);
                let pos = score_insert_pos(prev, scores, sc) as int;
                assert(r == prev.insert(pos, n));
                assert(score_at(scores, n) == sc);
                assert forall|k: int| 0 <= k < r.len() implies #[trigger] r[k] == if k < pos {
                    prev[k]
                } else if k == pos {
                    n
                } else {
                    prev[k - 1]
                } by {}
                assert forall|i: int| 0 <= i < scores.len() implies (r.contains(i) <==> (#[trigger] scores[i]) is Some) by {
                    if i < n {
                        assert(d[i] == scores[i]);
                        if prev.contains(i) {
                            let k = choose|k: int| 0 <= k < prev.len() && prev[k] == i;
                            if k < pos {
                                assert(r[k] == i);
                            } else {
                                assert(r[k + 1] == i);
                            }
                        }
                        if r.contains(i) {
                            let k = choose|k: int| 0 <= k < r.len() && r[k] == i;
                            if k < pos {
                                assert(prev[k] == i);
                            } else if k > pos {
                                assert(prev[k - 1] == i);
                            }
                        }
                    } else {
                        assert(r[pos] == n);
                    }
                }
                assert forall|a: int, b: int| 0 <= a < b < r.len() implies ranked_before(
                    scores,
                    #[trigger] r[a],
                    #[trigger] r[b],
                ) by {
                    if b < pos {
                        assert(ranked_before(d, prev[a], prev[b]));
                    } else if a > pos {
                        assert(ranked_before(d, prev[a - 1], prev[b - 1]));
                    } else if b == pos {
                        assert(!(score_at(scores, prev[a]) < sc));
                        assert(prev[a] < d.len());
                    } else if a == pos {
                        if b - 1 > pos {
                            assert(ranked_before(d, prev[pos], prev[b - 1]));
                        }
                        assert(score_at(scores, prev[b - 1]) < sc);
                    } else {
                        assert(ranked_before(d, prev[a], prev[b - 1]));
                    }
                }
            },
        }
    }
}

/// A fuzzy ranking lists exactly the indices of the items that match the pattern,
/// each once, by decreasing score, and items with equal scores in their own order.
pub proof fn law_fuzzy_ranking(items: Seq<PlaylistItem>, pattern: Seq<char>)
    ensures
        forall|k: int|
            0 <= k < fuzzy_ranking(items, pattern).len() ==> 0 <= #[trigger] fuzzy_ranking(items, pattern)[k]
                < items.len(),
        forall|i: int|
            0 <= i < items.len() ==> (fuzzy_ranking(items, pattern).contains(i) <==> (#[trigger] item_score(
                items[i],
                pattern,
            )) is Some),
        forall|a: int, b: int|
            0 <= a < b < fuzzy_ranking(items, pattern).len() ==> #[trigger] fuzzy_ranking(items, pattern)[a]
                != #[trigger] fuzzy_ranking(items, pattern)[b],
        forall|a: int, b: int|
            0 <= a < b < fuzzy_ranking(items, pattern).len() ==> ranked_before(
                item_scores(items, pattern),
                #[trigger] fuzzy_ranking(items, pattern)[a],
                #[trigger] fuzzy_ranking(items, pattern)[b],
            ),
{
    let scores = item_scores(items, pattern);
    law_ranking_by_score(scores);
    assert forall|i: int| 0 <= i < items.len() implies #[trigger] item_score(items[i], pattern) == scores[i] by {}
}

/// Every item's path is not less than the one before it.
pub open spec fn path_sorted(s: Seq<PlaylistItem>) -> bool {
    forall|a: int, b: int| 0 <= a < b < s.len() ==> !chars_lt(#[trigger] s[b].path@.1, #[trigger] s[a].path@.1)
}

proof fn lemma_chars_lt_irreflexive(a: Seq<char>)
    ensures
        !chars_lt(a, a),
    decreases a.len(),
{
    if a.len() > 0 {
        lemma_chars_lt_irreflexive(a.drop_first());
    }
}

proof fn lemma_chars_lt_transitive(a: Seq<char>, b: Seq<char>, c: Seq<char>)
    requires
        chars_lt(a, b),
        chars_lt(b, c),
    ensures
        chars_lt(a, c),
    decreases a.len(),
{
    if a.len() > 0 && a[0] == b[0] && b[0] == c[0] {
        lemma_chars_lt_transitive(a.drop_first(), b.drop_first(), c.drop_first());
    }
}

proof fn lemma_path_insert_pos_props(sorted: Seq<PlaylistItem>, x: PlaylistItem)
    ensures
        path_insert_pos(sorted, x) <= sorted.len(),
        forall|k: int| 0 <= k < path_insert_pos(sorted, x) ==> !chars_lt(x.path@.1, #[trigger] sorted[k].path@.1),
        path_insert_pos(sorted, x) < sorted.len() ==> chars_lt(
            x.path@.1,
            sorted[path_insert_pos(sorted, x) as int].path@.1,
        ),
    decreases sorted.len(),
{
    if sorted.len() > 0 && !chars_lt(x.path@.1, sorted[0].path@.1) {
        let rest = sorted.drop_first();
        lemma_path_insert_pos_props(rest, x);
        let p = path_insert_pos(sorted, x);
        assert forall|k: int| 0 <= k < p implies !chars_lt(x.path@.1, #[trigger] sorted[k].path@.1) by {
            if k > 0 {
                assert(sorted[k] == rest[k - 1]);
            }
        }
        if p < sorted.len() {
            assert(sorted[p as int] == rest[p - 1]);
        }
    }
}

/// Sorting by path keeps exactly the items it was given, each as often as before,
/// and puts them in order of their paths.
pub proof fn law_sorted_by_path(s: Seq<PlaylistItem>)
    ensures
        sorted_by_path(s).to_multiset() == s.to_multiset(),
        sorted_by_path(s).len() == s.len(),
        path_sorted(sorted_by_path(s)),
    decreases s.len(),
{
    if s.len() > 0 {
        let d = s.drop_last();
        let x = s.last();
        let p = sorted_by_path(d);
        law_sorted_by_path(d);
        lemma_path_insert_pos_props(p, x);
        let pos = path_insert_pos(p, x) as int;
        let r = sorted_by_path(s);
        assert(r == p.insert(pos, x));
        assert(s == d.push(x));
        assert(r.to_multiset() == p.to_multiset().insert(x));
        assert forall|k: int| 0 <= k < r.len() implies #[trigger] r[k] == if k < pos {
            p[k]
        } else if k == pos {
            x
        } else {
            p[k - 1]
        } by {}
        assert forall|a: int, b: int| 0 <= a < b < r.len() implies !chars_lt(
            #[trigger] r[b].path@.1,
            #[trigger] r[a].path@.1,
        ) by {
            if b < pos {
                assert(!chars_lt(p[b].path@.1, p[a].path@.1));
            } else if a > pos {
                assert(!chars_lt(p[b - 1].path@.1, p[a - 1].path@.1));
            } else if b == pos {
            } else if a == pos {
                if chars_lt(p[b - 1].path@.1, x.path@.1) {
                    lemma_chars_lt_transitive(p[b - 1].path@.1, x.path@.1, p[pos].path@.1);
                    if b - 1 == pos {
                        lemma_chars_lt_irreflexive(p[pos].path@.1);
                    } else {
                        assert(!chars_lt(p[b - 1].path@.1, p[pos].path@.1));
                    }
                }
            } else {
                assert(!chars_lt(p[b - 1].path@.1, p[a].path@.1));
            }
        }
    }
}

/// No path is in both panes.
pub open spec fn panes_disjoint(playlist: Seq<PlaylistItem>, library: Seq<PlaylistItem>) -> bool {
    forall|p: (bool, Seq<char>)| has_path(playlist, p) ==> !has_path(library, p)
}

/// Refreshing the library against the playlist's paths keeps the two panes free of a
/// shared path: a kept item was in the library already, and an added entry is in no
/// way in the playlist.
pub proof fn law_refresh_keeps_panes_disjoint(
    playlist: Seq<PlaylistItem>,
    library: Seq<PlaylistItem>,
    entries: Seq<PlaylistItem>,
)
    requires
        panes_disjoint(playlist, library),
    ensures
        panes_disjoint(playlist, refreshed_items(library, entries, item_path_views(playlist))),
{
    broadcast use vstd::seq_lib::group_filter_ensures;
    broadcast use vstd::seq_lib::to_multiset_contains;

    let listed = item_path_views(playlist);
    let kept = kept_on_refresh(library, entries);
    let added = added_on_refresh(entries, listed, kept);
    let c = kept + added;
    let r = refreshed_items(library, entries, listed);
    law_sorted_by_path(c);
    assert(r == sorted_by_path(c));
    assert forall|p: (bool, Seq<char>)| has_path(playlist, p) implies !has_path(r, p) by {
        let k = choose|k: int| 0 <= k < playlist.len() && #[trigger] playlist[k].path@ == p;
        assert(listed[k] == p);
        assert(listed.contains(p));
        if has_path(r, p) {
            let j = choose|j: int| 0 <= j < r.len() && #[trigger] r[j].path@ == p;
            let y = r[j];
            assert(r.contains(y));
            assert(r.to_multiset().count(y) > 0);
            assert(c.to_multiset().count(y) > 0);
            assert(c.contains(y));
            let i = choose|i: int| 0 <= i < c.len() && c[i] == y;
            if i < kept.len() {
                assert(kept[i] == y);
                assert(kept.contains(y));
                library.lemma_filter_contains_rev(kept_by(entries), y);
                let l = choose|l: int| 0 <= l < library.len() && library[l] == y;
                assert(library[l].path@ == p);
                assert(has_path(library, p));
            } else {
                assert(added[i - kept.len()] == y);
                assert(added.contains(y));
                assert(added_by(listed, kept)(y));
            }
        }
    }
}

/// A refresh leaves the library sorted by path; keeps every URL entry; lists every
/// file found on disk that is not in the playlist; and lists nothing that is neither
/// a URL entry nor found on disk.
pub proof fn law_refresh(
    items: Seq<PlaylistItem>,
    entries: Seq<PlaylistItem>,
    listed: Seq<(bool, Seq<char>)>,
)
    ensures
        path_sorted(refreshed_items(items, entries, listed)),
        forall|k: int|
            0 <= k < items.len() && (#[trigger] items[k]).is_virtual ==> refreshed_items(
                items,
                entries,
                listed,
            ).contains(items[k]),
        forall|k: int|
            0 <= k < entries.len() && !listed.contains((#[trigger] entries[k]).path@) ==> has_path(
                refreshed_items(items, entries, listed),
                entries[k].path@,
            ),
        forall|k: int|
            0 <= k < refreshed_items(items, entries, listed).len() ==> (#[trigger] refreshed_items(
                items,
                entries,
                listed,
            )[k]).is_virtual || has_path(entries, refreshed_items(items, entries, listed)[k].path@),
{
    broadcast use vstd::seq_lib::group_filter_ensures;
    broadcast use vstd::seq_lib::to_multiset_contains;

    let kept = kept_on_refresh(items, entries);
    let added = added_on_refresh(entries, listed, kept);
    let c = kept + added;
    let r = refreshed_items(items, entries, listed);
    law_sorted_by_path(c);
    assert(r == sorted_by_path(c));
    assert forall|y: PlaylistItem| c.contains(y) implies r.contains(y) by {
        assert(c.to_multiset().count(y) > 0);
        assert(r.to_multiset().count(y) > 0);
    }
    assert forall|y: PlaylistItem| r.contains(y) implies c.contains(y) by {
        assert(r.to_multiset().count(y) > 0);
        assert(c.to_multiset().count(y) > 0);
    }
    assert forall|k: int| 0 <= k < items.len() && (#[trigger] items[k]).is_virtual implies r.contains(
        items[k],
    ) by {
        assert(kept_by(entries)(items[k]));
        assert(kept.contains(items[k]));
        let j = choose|j: int| 0 <= j < kept.len() && kept[j] == items[k];
        assert(c[j] == items[k]);
        assert(c.contains(items[k]));
    }
    assert forall|k: int| 0 <= k < entries.len() && !listed.contains((#[trigger] entries[k]).path@) implies has_path(
        r,
        entries[k].path@,
    ) by {
        let e = entries[k];
        if has_path(kept, e.path@) {
            let j = choose|j: int| 0 <= j < kept.len() && #[trigger] kept[j].path@ == e.path@;
            assert(c[j] == kept[j]);
            assert(c.contains(kept[j]));
            assert(r.contains(kept[j]));
            let m = choose|m: int| 0 <= m < r.len() && r[m] == kept[j];
            assert(r[m].path@ == e.path@);
        } else {
            assert(added_by(listed, kept)(e));
            assert(added.contains(e));
            let j = choose|j: int| 0 <= j < added.len() && added[j] == e;
            assert(c[kept.len() + j] == e);
            assert(c.contains(e));
            assert(r.contains(e));
            let m = choose|m: int| 0 <= m < r.len() && r[m] == e;
            assert(r[m].path@ == e.path@);
        }
    }
    assert forall|k: int| 0 <= k < r.len() implies (#[trigger] r[k]).is_virtual || has_path(
        entries,
        r[k].path@,
    ) by {
        let y = r[k];
        assert(r.contains(y));
        assert(c.contains(y));
        let j = choose|j: int| 0 <= j < c.len() && c[j] == y;
        if j < kept.len() {
            assert(kept[j] == y);
            assert(kept_by(entries)(kept[j]));
        } else {
            assert(added[j - kept.len()] == y);
            assert(added.contains(y));
            entries.lemma_filter_contains_rev(added_by(listed, kept), y);
            let m = choose|m: int| 0 <= m < entries.len() && entries[m] == y;
            assert(entries[m].path@ == y.path@);
        }
    }
}

/// Moving the selected library item to the playlist: the playlist then lists its
/// path, the library holds one item fewer, the playlist lists no path twice if it
/// did not before, and the focus is on a pane that is not empty.
pub proof fn law_move_to_playlist(before: TuiState, after: TuiState, r: Step)
    requires
        move_to_playlist_done(before, after, r),
        library_selection(before) is Some,
    ensures
        has_path(after.playlist_pane.items@, library_selection(before)->0.path@),
        after.library_pane.items@.len() + 1 == before.library_pane.items@.len(),
        paths_distinct(before.playlist_pane.items@) ==> paths_distinct(after.playlist_pane.items@),
        pane_len(after, after.focused_pane) > 0,
{
    lemma_selected_index_bounds(before.library_pane.items@, before.library_pane.filter,
        before.library_pane.selected as nat);
    let it = library_selection(before)->0;
    let pl = before.playlist_pane.items@;
    if !has_path(pl, it.path@) {
        let added = after.playlist_pane.items@.last();
        assert(after.playlist_pane.items@[pl.len() as int] == added);
        assert(added.path@ == it.path@);
    }
    if paths_distinct(pl) {
        let item = crate::state::new_item(it.path, it.duration, it.alias, it.mime_type, it.is_virtual);
        law_add_keeps_paths_distinct(pl, item);
    }
}

/// Moving the selected playlist item to the library: the playlist holds one item
/// fewer; unless the item's file is missing, the library then holds the item and
/// stays sorted by path.
pub proof fn law_move_to_library(before: TuiState, after: TuiState, missing: bool)
    requires
        playlist_selection(before) is Some,
        moved_to_library(before, after, playlist_selection(before)->0, missing),
    ensures
        after.playlist_pane.items@.len() + 1 == before.playlist_pane.items@.len(),
        !missing ==> after.library_pane.items@.contains(playlist_selection(before)->0),
        !missing ==> path_sorted(after.library_pane.items@),
{
    broadcast use vstd::seq_lib::to_multiset_contains;

    lemma_selected_index_bounds(before.playlist_pane.items@, before.playlist_pane.filter,
        before.playlist_pane.selected as nat);
    if !missing {
        let it = playlist_selection(before)->0;
        let s = before.library_pane.items@.push(it);
        law_sorted_by_path(s);
        assert(s[s.len() - 1] == it);
        assert(s.contains(it));
        assert(s.to_multiset().count(it) > 0);
    }
}

/// The groups of a list of columns, column after column.
pub open spec fn flattened(cols: Seq<Seq<(KeyCategory, Seq<(Key, Seq<char>)>)>>) -> Seq<(KeyCategory, Seq<(Key, Seq<char>)>)>
    decreases cols.len(),
{
    if cols.len() == 0 {
        Seq::empty()
    } else {
        flattened(cols.drop_last()) + cols.last()
    }
}

proof fn lemma_packed_keeps_groups(groups: Seq<(KeyCategory, Seq<(Key, Seq<char>)>)>, rows: nat)
    ensures
        flattened(packed(groups, rows).0) + packed(groups, rows).1 == groups,
        forall|k: int| 0 <= k < packed(groups, rows).0.len() ==> (#[trigger] packed(groups, rows).0[k]).len() > 0,
    decreases groups.len(),
{
    if groups.len() > 0 {
        let d = groups.drop_last();
        lemma_packed_keeps_groups(d, rows);
        let p = packed(d, rows);
        let g = groups.last();
        if p.2 + g.1.len() + 1 > rows && p.2 > 0 {
            crate::which_key_layout::lemma_packed_rows(d, rows);
            assert(p.0.push(p.1).drop_last() =~= p.0);
            assert(flattened(p.0.push(p.1)) =~= flattened(p.0) + p.1);
            assert(flattened(p.0.push(p.1)) + seq![g] =~= groups);
        } else {
            assert(groups =~= d.push(g));
            assert((flattened(p.0) + p.1).push(g) =~= flattened(p.0) + p.1.push(g));
        }
    }
}

/// Splitting the popup's groups into columns keeps every group, once, in order, and
/// leaves no column empty.
pub proof fn law_columns_keep_groups(groups: Seq<(KeyCategory, Seq<(Key, Seq<char>)>)>, rows: nat)
    ensures
        flattened(column_groups(groups, rows)) == groups,
        forall|k: int| 0 <= k < column_groups(groups, rows).len() ==> (#[trigger] column_groups(groups, rows)[k]).len() > 0,
{
    lemma_packed_keeps_groups(groups, rows);
    let p = packed(groups, rows);
    if p.1.len() > 0 {
        assert(p.0.push(p.1).drop_last() =~= p.0);
        assert(flattened(p.0.push(p.1)) =~= flattened(p.0) + p.1);
    } else {
        assert(flattened(p.0) + p.1 =~= flattened(p.0));
    }
}

/// Moving the selection up and then down again comes back to the same row, and so
/// does moving down and then up, wherever both moves are possible.
pub proof fn law_selection_round_trip(items: Seq<PlaylistItem>, f: Filter, selected: nat)
    ensures
        0 < selected < row_count(items, f) ==> selection_after_down(
            items,
            f,
            selection_after_up(items, f, selected),
        ) == selected,
        selected + 1 < row_count(items, f) ==> selection_after_up(
            items,
            f,
            selection_after_down(items, f, selected),
        ) == selected,
{
}

/// The three fields of a clock reading (`[hh:mm:ss]`) give back the seconds it shows,
/// and minutes and seconds stay below sixty.
pub proof fn law_clock_fields(secs: nat)
    ensures
        (secs % 3600) / 60 < 60,
        secs % 60 < 60,
        (secs / 3600) * 3600 + ((secs % 3600) / 60) * 60 + secs % 60 == secs,
{
    assert((secs % 3600) / 60 < 60) by (nonlinear_arith);
    assert((secs / 3600) * 3600 + ((secs % 3600) / 60) * 60 + secs % 60 == secs) by (nonlinear_arith);
}

proof fn lemma_decimal_shape(n: nat)
    ensures
        decimal(n).len() >= 1,
        n >= 10 ==> decimal(n).len() >= 2,
        decimal(n).last() == digit_char(n % 10),
    decreases n,
{
    if n >= 10 {
        lemma_decimal_shape(n / 10);
    }
}

proof fn lemma_decimal_injective(n: nat, m: nat)
    requires
        decimal(n) == decimal(m),
    ensures
        n == m,
    decreases n,
{
    lemma_decimal_shape(n);
    lemma_decimal_shape(m);
    if n >= 10 && m >= 10 {
        assert(decimal(n).drop_last() == decimal(n / 10));
        assert(decimal(m).drop_last() == decimal(m / 10));
        lemma_decimal_injective(n / 10, m / 10);
        assert(digit_char(n % 10) == digit_char(m % 10));
        assert(n % 10 == m % 10);
    } else if n < 10 && m < 10 {
        assert(decimal(n)[0] == decimal(m)[0]);
    }
}

/// Numbering a link's name never gives two attempts the same name, so looking for a
/// free name tries a new one each time.
pub proof fn law_numbered_names_differ(stem: Seq<char>, ext: Option<Seq<char>>, n: nat, m: nat)
    requires
        n != m,
    ensures
        suffixed_text(stem, ext, n) != suffixed_text(stem, ext, m),
{
    let head = stem + "_"@;
    let tail = match ext {
        Some(e) => "."@ + e,
        None => Seq::<char>::empty(),
    };
    let x = suffixed_text(stem, ext, n);
    let y = suffixed_text(stem, ext, m);
    assert(x =~= head + decimal(n) + tail);
    assert(y =~= head + decimal(m) + tail);
    if x == y {
        assert(decimal(n).len() == decimal(m).len());
        assert(decimal(n) =~= x.subrange(head.len() as int, (head.len() + decimal(n).len()) as int));
        assert(decimal(m) =~= y.subrange(head.len() as int, (head.len() + decimal(m).len()) as int));
        lemma_decimal_injective(n, m);
    }
}

/// The lines of the bindings, in order.
pub open spec fn binding_lines(bindings: Seq<LeafBinding>) -> Seq<(Key, Seq<char>)> {
    bindings.map_values(|b: LeafBinding| (b.key, b.description@))
}

/// The lines of the first `n` categories of the listing order, one after another.
pub open spec fn lines_upto(bindings: Seq<LeafBinding>, branches: Seq<(Key, String)>, n: nat) -> Seq<(Key, Seq<char>)>
    decreases n,
{
    if n == 0 {
        Seq::empty()
    } else {
        lines_upto(bindings, branches, (n - 1) as nat) + category_lines(bindings, branches, category_at(n - 1))
    }
}

proof fn lemma_grouped_lines(bindings: Seq<LeafBinding>, branches: Seq<(Key, String)>, n: nat)
    ensures
        all_lines(grouped_upto(bindings, branches, n)) == lines_upto(bindings, branches, n),
    decreases n,
{
    if n > 0 {
        lemma_grouped_lines(bindings, branches, (n - 1) as nat);
        let p = grouped_upto(bindings, branches, (n - 1) as nat);
        let lines = category_lines(bindings, branches, category_at(n - 1));
        if lines.len() > 0 {
            assert(p.push((category_at(n - 1), lines)).drop_last() =~= p);
        } else {
            assert(lines_upto(bindings, branches, (n - 1) as nat) + lines =~= lines_upto(
                bindings,
                branches,
                (n - 1) as nat,
            ));
        }
    }
}

/// The bindings' lines of the first `n` categories, one after another.
pub open spec fn binding_lines_upto(bindings: Seq<LeafBinding>, n: nat) -> Seq<(Key, Seq<char>)>
    decreases n,
{
    if n == 0 {
        Seq::empty()
    } else {
        binding_lines_upto(bindings, (n - 1) as nat) + bindings_in(bindings, category_at(n - 1))
    }
}

proof fn lemma_split_general(bindings: Seq<LeafBinding>, branches: Seq<(Key, String)>, n: nat)
    requires
        n >= 1,
    ensures
        lines_upto(bindings, branches, n).to_multiset() == binding_lines_upto(bindings, n).to_multiset().add(
            branch_lines(branches).to_multiset(),
        ),
    decreases n,
{
    broadcast use vstd::seq_lib::lemma_multiset_commutative;
    broadcast use vstd::multiset::group_multiset_axioms;

    if n == 1 {
        assert(lines_upto(bindings, branches, 0) =~= Seq::<(Key, Seq<char>)>::empty());
        assert(binding_lines_upto(bindings, 0) =~= Seq::<(Key, Seq<char>)>::empty());
        assert(lines_upto(bindings, branches, 1) =~= bindings_in(bindings, KeyCategory::General) + branch_lines(
            branches,
        ));
        assert(binding_lines_upto(bindings, 1) =~= bindings_in(bindings, KeyCategory::General));
    } else {
        lemma_split_general(bindings, branches, (n - 1) as nat);
        let c = category_at(n - 1);
        assert(c != KeyCategory::General);
        let a = lines_upto(bindings, branches, (n - 1) as nat);
        let b = binding_lines_upto(bindings, (n - 1) as nat);
        let extra = bindings_in(bindings, c);
        assert((a + extra).to_multiset() =~= a.to_multiset().add(extra.to_multiset()));
        assert((b + extra).to_multiset() =~= b.to_multiset().add(extra.to_multiset()));
    }
}

proof fn lemma_binding_lines_cover(bindings: Seq<LeafBinding>)
    ensures
        binding_lines_upto(bindings, 5).to_multiset() == binding_lines(bindings).to_multiset(),
    decreases bindings.len(),
{
    broadcast use vstd::seq_lib::lemma_multiset_commutative;
    broadcast use vstd::multiset::group_multiset_axioms;
    broadcast use vstd::seq_lib::to_multiset_build;

    if bindings.len() == 0 {
        assert(binding_lines_upto(bindings, 5) =~= Seq::<(Key, Seq<char>)>::empty()) by {
            assert(binding_lines_upto(bindings, 0) =~= Seq::<(Key, Seq<char>)>::empty());
            assert(binding_lines_upto(bindings, 1) =~= Seq::<(Key, Seq<char>)>::empty());
            assert(binding_lines_upto(bindings, 2) =~= Seq::<(Key, Seq<char>)>::empty());
            assert(binding_lines_upto(bindings, 3) =~= Seq::<(Key, Seq<char>)>::empty());
            assert(binding_lines_upto(bindings, 4) =~= Seq::<(Key, Seq<char>)>::empty());
        }
        assert(binding_lines(bindings) =~= Seq::<(Key, Seq<char>)>::empty());
    } else {
        let d = bindings.drop_last();
        let b = bindings.last();
        let line = (b.key, b.description@);
        lemma_binding_lines_cover(d);
        assert(binding_lines(bindings) =~= binding_lines(d).push(line));
        let m0 = bindings_in(d, category_at(0)).to_multiset();
        let m1 = bindings_in(d, category_at(1)).to_multiset();
        let m2 = bindings_in(d, category_at(2)).to_multiset();
        let m3 = bindings_in(d, category_at(3)).to_multiset();
        let m4 = bindings_in(d, category_at(4)).to_multiset();
        assert(binding_lines_upto(d, 5).to_multiset() =~= m0.add(m1).add(m2).add(m3).add(m4)) by {
            assert(binding_lines_upto(d, 1).to_multiset() =~= m0) by {
                assert(binding_lines_upto(d, 0) =~= Seq::<(Key, Seq<char>)>::empty());
                assert(binding_lines_upto(d, 1) =~= bindings_in(d, category_at(0)));
            }
            assert((binding_lines_upto(d, 1) + bindings_in(d, category_at(1))).to_multiset()
                =~= binding_lines_upto(d, 1).to_multiset().add(m1));
            assert((binding_lines_upto(d, 2) + bindings_in(d, category_at(2))).to_multiset()
                =~= binding_lines_upto(d, 2).to_multiset().add(m2));
            assert((binding_lines_upto(d, 3) + bindings_in(d, category_at(3))).to_multiset()
                =~= binding_lines_upto(d, 3).to_multiset().add(m3));
            assert((binding_lines_upto(d, 4) + bindings_in(d, category_at(4))).to_multiset()
                =~= binding_lines_upto(d, 4).to_multiset().add(m4));
        }
        let n0 = bindings_in(bindings, category_at(0)).to_multiset();
        let n1 = bindings_in(bindings, category_at(1)).to_multiset();
        let n2 = bindings_in(bindings, category_at(2)).to_multiset();
        let n3 = bindings_in(bindings, category_at(3)).to_multiset();
        let n4 = bindings_in(bindings, category_at(4)).to_multiset();
        assert(binding_lines_upto(bindings, 5).to_multiset() =~= n0.add(n1).add(n2).add(n3).add(n4)) by {
            assert(binding_lines_upto(bindings, 1).to_multiset() =~= n0) by {
                assert(binding_lines_upto(bindings, 0) =~= Seq::<(Key, Seq<char>)>::empty());
                assert(binding_lines_upto(bindings, 1) =~= bindings_in(bindings, category_at(0)));
            }
            assert((binding_lines_upto(bindings, 1) + bindings_in(bindings, category_at(1))).to_multiset()
                =~= binding_lines_upto(bindings, 1).to_multiset().add(n1));
            assert((binding_lines_upto(bindings, 2) + bindings_in(bindings, category_at(2))).to_multiset()
                =~= binding_lines_upto(bindings, 2).to_multiset().add(n2));
            assert((binding_lines_upto(bindings, 3) + bindings_in(bindings, category_at(3))).to_multiset()
                =~= binding_lines_upto(bindings, 3).to_multiset().add(n3));
            assert((binding_lines_upto(bindings, 4) + bindings_in(bindings, category_at(4))).to_multiset()
                =~= binding_lines_upto(bindings, 4).to_multiset().add(n4));
        }
        if b.category == KeyCategory::General {
            assert(n0 =~= m0.insert(line));
            assert(n1 == m1 && n2 == m2 && n3 == m3 && n4 == m4);
        } else if b.category == KeyCategory::Navigation {
            assert(n1 =~= m1.insert(line));
            assert(n0 == m0 && n2 == m2 && n3 == m3 && n4 == m4);
        } else if b.category == KeyCategory::PaneSwitch {
            assert(n2 =~= m2.insert(line));
            assert(n0 == m0 && n1 == m1 && n3 == m3 && n4 == m4);
        } else if b.category == KeyCategory::ItemActions {
            assert(n3 =~= m3.insert(line));
            assert(n0 == m0 && n1 == m1 && n2 == m2 && n4 == m4);
        } else {
            assert(n4 =~= m4.insert(line));
            assert(n0 == m0 && n1 == m1 && n2 == m2 && n3 == m3);
        }
        assert(binding_lines_upto(bindings, 5).to_multiset() =~= binding_lines_upto(d, 5).to_multiset().insert(line));
        assert(binding_lines(bindings).to_multiset() =~= binding_lines(d).to_multiset().insert(line));
    }
}

/// The help popup lists every binding and every key sequence, each as often as it
/// is given: the lines of all its groups are the bindings' and the sequences' lines
/// in some order.
pub proof fn law_grouping_lists_every_binding(bindings: Seq<LeafBinding>, branches: Seq<(Key, String)>)
    ensures
        all_lines(grouped(bindings, branches)).to_multiset() == binding_lines(bindings).to_multiset().add(
            branch_lines(branches).to_multiset(),
        ),
{
    lemma_grouped_lines(bindings, branches, 5);
    lemma_split_general(bindings, branches, 5);
    lemma_binding_lines_cover(bindings);
}

/// No path is listed twice in a sources answer, as in the map it is read from.
pub open spec fn answer_keys_distinct(answer: Seq<(String, Vec<Source>)>) -> bool {
    forall|a: int, b: int| 0 <= a < b < answer.len() ==> (#[trigger] answer[a]).0@ != (#[trigger] answer[b]).0@
}

/// Where no path is listed twice, an item is marked as having sources exactly when
/// the entry for its path lists at least one: the answer reads as a map lookup.
pub proof fn law_sources_answer_is_lookup(answer: Seq<(String, Vec<Source>)>, k: int)
    requires
        answer_keys_distinct(answer),
        0 <= k < answer.len(),
    ensures
        has_sources_in(answer, answer[k].0@) <==> answer[k].1@.len() > 0,
{
    if has_sources_in(answer, answer[k].0@) {
        let j = choose|j: int| 0 <= j < answer.len() && (#[trigger] answer[j]).0@ == answer[k].0@
            && answer[j].1@.len() > 0;
        if j < k {
            assert(answer[j].0@ != answer[k].0@);
        } else if j > k {
            assert(answer[k].0@ != answer[j].0@);
        }
    }
}

/// Aliases resolve by priority: a file with an alias set in the workspace shows an
/// alias set there, however recent the aliases from other workspaces; else a file with
/// aliases shows one of those updated last; a file with no alias shows none.
pub proof fn law_alias_priority(rows: Seq<AliasRow>, file: Seq<char>, ws: Seq<char>)
    ensures
        has_workspace_alias(rows, file, ws) ==> exists|j: int|
            0 <= j < rows.len() && names_file_in(#[trigger] rows[j], file, ws)
                && resolved_alias(rows, file, ws) == Some(rows[j].alias@),
        !has_workspace_alias(rows, file, ws) && (exists|j: int| 0 <= j < rows.len() && names_file(#[trigger] rows[j], file))
            ==> exists|j: int|
            0 <= j < rows.len() && names_file(#[trigger] rows[j], file)
                && resolved_alias(rows, file, ws) == Some(rows[j].alias@)
                && forall|k: int| 0 <= k < rows.len() && names_file(#[trigger] rows[k], file)
                    ==> rows[k].updated_at <= rows[j].updated_at,
        (forall|j: int| 0 <= j < rows.len() ==> !names_file(#[trigger] rows[j], file))
            ==> resolved_alias(rows, file, ws) is None,
{
    if exists|j: int| 0 <= j < rows.len() && names_file(#[trigger] rows[j], file) {
        lemma_chosen_alias_row_exists(rows, file, ws);
        let c = choose|c: int| chosen_alias_row(rows, file, ws, c);
        assert(resolved_alias(rows, file, ws) == Some(rows[c].alias@));
        if has_workspace_alias(rows, file, ws) {
            assert(names_file_in(rows[c], file, ws));
        }
    } else {
        assert(!exists|c: int| chosen_alias_row(rows, file, ws, c));
    }
}

/// A pane row shows the usage count the same way in either display mode: when the
/// count reaches the minimum and the row's text followed by `(n)` is shorter than the
/// pane, the row is exactly as wide as the pane, starts with the text, ends with
/// `(n)`, and has only spaces between; otherwise the row is the text alone. An item
/// without an alias therefore gives the same row in both display modes.
pub proof fn law_item_line_count(
    item: PlaylistItem,
    mode: ItemDisplayMode,
    pane_width: nat,
    playlist_count: nat,
    min_count: nat,
)
    ensures
        ({
            let line = item_line(item, mode, pane_width, playlist_count, min_count);
            let base = base_line(item, mode);
            let count = count_text(playlist_count);
            if playlist_count >= min_count && pane_width > 0 && base.len() + count.len() < pane_width {
                &&& line.len() == pane_width
                &&& line.take(base.len() as int) == base
                &&& line.skip(pane_width - count.len()) == count
                &&& forall|i: int| base.len() <= i < pane_width - count.len() ==> #[trigger] line[i] == ' '
            } else {
                line == base
            }
        }),
        item.alias is None ==> item_line(item, ItemDisplayMode::Alias, pane_width, playlist_count, min_count)
            == item_line(item, ItemDisplayMode::Path, pane_width, playlist_count, min_count),
{
    let line = item_line(item, mode, pane_width, playlist_count, min_count);
    let base = base_line(item, mode);
    let count = count_text(playlist_count);
    if playlist_count >= min_count && pane_width > 0 && base.len() + count.len() < pane_width {
        let pad = spaces((pane_width - base.len() - count.len()) as nat);
        assert(line == base + pad + count);
        assert(line.take(base.len() as int) =~= base);
        assert(line.skip(pane_width - count.len()) =~= count);
        assert forall|i: int| base.len() <= i < pane_width - count.len() implies #[trigger] line[i] == ' ' by {
            assert(line[i] == pad[i - base.len()]);
        }
    }
    if item.alias is None {
        assert(base_line(item, ItemDisplayMode::Alias) =~= base_line(item, ItemDisplayMode::Path));
    }
}

/// Submitting an alias for the selected item of the focused pane, whichever pane that
/// is: when the item is a file and the alias differs from its current one, the step
/// stores it, running the alias command with the item's path and the new alias;
/// otherwise nothing is stored and handling is done.
pub proof fn law_rename_stores_new_alias(before: TuiState, after: TuiState, alias: String, r: Step)
    requires
        rename_submit_done(before, after, alias, r),
        focused_selection(before) is Some,
    ensures
        ({
            let it = focused_selection(before)->0;
            if !it.path@.0 && opt_view(it.alias) != Some(alias@) {
                r matches Step::Run { command: Command::AliasSet { path, alias: a }, then: Pending::AliasSet }
                    && path@ == it.path@.1 && a@ == alias@
            } else {
                r == Step::Done(TuiActionResponse::Continue)
            }
        }),
{
}

/// Whether an alias is stored does not depend on the pane it was given in: two
/// submissions of the same alias whose focused panes have the same item selected take
/// the same step, the one in the playlist and the one in the library alike.
pub proof fn law_rename_step_same_in_either_pane(
    before1: TuiState,
    after1: TuiState,
    r1: Step,
    before2: TuiState,
    after2: TuiState,
    r2: Step,
    alias: String,
)
    requires
        rename_submit_done(before1, after1, alias, r1),
        rename_submit_done(before2, after2, alias, r2),
        before1.focused_pane == Pane::Playlist,
        before2.focused_pane == Pane::Library,
        focused_selection(before1) == focused_selection(before2),
    ensures
        r1 is Run <==> r2 is Run,
        !(r1 is Run) ==> r1 == r2,
        r1 matches Step::Run { command: Command::AliasSet { path: p1, alias: a1 }, then: Pending::AliasSet }
            ==> (r2 matches Step::Run { command: Command::AliasSet { path: p2, alias: a2 }, then: Pending::AliasSet }
                && p1@ == p2@ && a1 == a2),
{
}

} // verus!
