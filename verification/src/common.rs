//! How items are named, formatted and filtered in the panes.
use vstd::prelude::*;
use fuzzy_matcher::FuzzyMatcher;
use crate::filter::Filter;
use crate::domain::{Duration, ItemDisplayMode, PlaylistItem, path_file_stem, max_duration_nanos};
use crate::text::{chars_of, decimal, owned, pad2, push_decimal, push_pad2, push_spaces, spaces, char_len};

verus! {

/// Seconds of a duration as `[hh:mm:ss]`, hours padded to at least two digits.
pub open spec fn clock_text(secs: nat) -> Seq<char> {
    seq!['['] + pad2(secs / 3600) + seq![':'] + pad2((secs % 3600) / 60) + seq![':'] + pad2(secs % 60)
        + seq![']']
}

/// The text `format_duration` gives.
pub open spec fn duration_text(d: Option<Duration>) -> Seq<char> {
    match d {
        Some(d) => clock_text(d@ / 1_000_000_000nat),
        None => "[--:--:--]"@,
    }
}

/// Formats an optional duration as `[hh:mm:ss]`, or `[--:--:--]` when absent.
pub fn format_duration(duration: Option<Duration>) -> (r: String)
    ensures
        r@ == duration_text(duration),
{
    match duration {
        Some(d) => {
            let total_secs = d.as_secs();
            let hours = total_secs / 3600;
            let mins = (total_secs % 3600) / 60;
            let secs = total_secs % 60;
            let mut s = String::new();
            s.push('[');
            push_pad2(&mut s, hours);
            s.push(':');
            push_pad2(&mut s, mins);
            s.push(':');
            push_pad2(&mut s, secs);
            s.push(']');
            assert(s@ =~= clock_text(total_secs as nat));
            s
        },
        None => owned("[--:--:--]"),
    }
}

/// The name of an item's file: its stem, or the whole path text when it has none.
pub open spec fn stem_or_text(item: PlaylistItem) -> Seq<char> {
    match path_file_stem(item.path@.1) {
        Some(stem) => stem,
        None => item.path@.1,
    }
}

/// The name used to match an item against a filter: its alias, else its file name.
pub open spec fn display_name(item: PlaylistItem) -> Seq<char> {
    match item.alias {
        Some(a) => a@,
        None => stem_or_text(item),
    }
}

fn stem_or_text_of(item: &PlaylistItem) -> (r: String)
    ensures
        r@ == stem_or_text(*item),
{
    match item.path.file_stem() {
        Some(stem) => stem,
        None => item.path.to_string_lossy(),
    }
}

/// The alias of an item, or its file stem, or its whole path text.
pub fn get_display_name(item: &PlaylistItem) -> (r: String)
    ensures
        r@ == display_name(*item),
{
    match &item.alias {
        Some(a) => a.clone(),
        None => stem_or_text_of(item),
    }
}

/// Whether `p` is a prefix of `s`.
pub open spec fn has_prefix(s: Seq<char>, p: Seq<char>) -> bool {
    p.len() <= s.len() && s.take(p.len() as int) == p
}

pub(crate) fn starts_with(s: &Vec<char>, p: &Vec<char>) -> (r: bool)
    ensures
        r == has_prefix(s@, p@),
{
    if p.len() > s.len() {
        return false;
    }
    let mut i: usize = 0;
    while i < p.len()
        invariant
            p@.len() <= s@.len(),
            i <= p@.len(),
            forall|k: int| 0 <= k < i ==> s@[k] == p@[k],
        decreases p@.len() - i,
    {
        if s[i] != p[i] {
            assert(s@.take(p@.len() as int)[i as int] != p@[i as int]);
            return false;
        }
        i = i + 1;
    }
    assert(s@.take(p@.len() as int) =~= p@);
    true
}

fn string_from_suffix(s: &Vec<char>, from: usize) -> (r: String)
    requires
        from <= s@.len(),
    ensures
        r@ == s@.skip(from as int),
{
    let mut r = String::new();
    let mut i: usize = from;
    while i < s.len()
        invariant
            from <= i <= s@.len(),
            r@ == s@.subrange(from as int, i as int),
        decreases s@.len() - i,
    {
        r.push(s[i]);
        i = i + 1;
        assert(r@ =~= s@.subrange(from as int, i as int));
    }
    assert(r@ =~= s@.skip(from as int));
    r
}

/// The text `format_mime_type` gives: the subtype of an `application/` type, the
/// type itself otherwise, and `unknown` when there is none.
pub open spec fn mime_text(mime: Option<Seq<char>>) -> Seq<char> {
    match mime {
        Some(m) => if has_prefix(m, "application/"@) {
            m.skip("application/"@.len() as int)
        } else {
            m
        },
        None => "unknown"@,
    }
}

/// Formats a MIME type for display.
pub fn format_mime_type(mime: Option<&str>) -> (r: String)
    ensures
        r@ == mime_text(match mime { Some(m) => Some(m@), None => None }),
{
    match mime {
        Some(m) => {
            let cs = chars_of(m);
            let prefix = chars_of("application/");
            if starts_with(&cs, &prefix) {
                string_from_suffix(&cs, prefix.len())
            } else {
                owned(m)
            }
        },
        None => owned("unknown"),
    }
}

/// The view of an optional string.
pub open spec fn opt_view(s: Option<String>) -> Option<Seq<char>> {
    match s {
        Some(v) => Some(v@),
        None => None,
    }
}

/// The file name shown for an item: the full path text for URLs and virtual
/// items, else the file stem (or the path text when there is no stem).
pub open spec fn shown_file_name(item: PlaylistItem) -> Seq<char> {
    if item.is_virtual || item.path@.0 {
        item.path@.1
    } else {
        stem_or_text(item)
    }
}

/// The file name shown for an item (see [`shown_file_name`]).
pub fn item_file_name(item: &PlaylistItem) -> (r: String)
    ensures
        r@ == shown_file_name(*item),
{
    if item.is_virtual || item.path.is_url() {
        item.path.to_string_lossy()
    } else {
        stem_or_text_of(item)
    }
}

/// The heading of the alias popup: the file name of the item being renamed, or
/// `Unknown` when no item is selected.
pub fn rename_title(item: Option<&PlaylistItem>) -> (r: String)
    ensures
        r@ == match item {
            Some(it) => shown_file_name(*it),
            None => "Unknown"@,
        },
{
    match item {
        Some(it) => item_file_name(it),
        None => owned("Unknown"),
    }
}

/// The line for an item without the usage count.
pub open spec fn base_line(item: PlaylistItem, mode: ItemDisplayMode) -> Seq<char> {
    let head = seq!['['] + mime_text(opt_view(item.mime_type)) + seq![']', ' '] + duration_text(
        item.duration,
    ) + seq![' '];
    match mode {
        ItemDisplayMode::Alias => head + match item.alias {
            Some(a) => a@,
            None => shown_file_name(item),
        },
        ItemDisplayMode::Path => head + shown_file_name(item) + match item.alias {
            Some(a) => seq![' ', '/', ' '] + a@,
            None => Seq::<char>::empty(),
        },
    }
}

/// The usage count as shown: `(n)`.
pub open spec fn count_text(n: nat) -> Seq<char> {
    seq!['('] + decimal(n) + seq![')']
}

/// The full line `format_item_line` gives: the base line, and, when the count
/// reaches `min_count` and fits in the pane, the count right-aligned.
pub open spec fn item_line(
    item: PlaylistItem,
    mode: ItemDisplayMode,
    pane_width: nat,
    playlist_count: nat,
    min_count: nat,
) -> Seq<char> {
    let base = base_line(item, mode);
    let count = count_text(playlist_count);
    if playlist_count >= min_count && pane_width > 0 && base.len() + count.len() < pane_width {
        base + spaces((pane_width - base.len() - count.len()) as nat) + count
    } else {
        base
    }
}

/// Formats one line of a pane for `item`.
pub fn format_item_line(
    item: &PlaylistItem,
    display_mode: ItemDisplayMode,
    pane_width: u16,
    playlist_count: usize,
    min_count: usize,
) -> (r: String)
    ensures
        r@ == item_line(*item, display_mode, pane_width as nat, playlist_count as nat, min_count as nat),
{
    let mime_str = match &item.mime_type {
        Some(m) => format_mime_type(Some(m.as_str())),
        None => format_mime_type(None),
    };
    let duration_str = format_duration(item.duration);
    let filename = item_file_name(item);
    let mut base = String::new();
    base.push('[');
    base.push_str(mime_str.as_str());
    base.push(']');
    base.push(' ');
    base.push_str(duration_str.as_str());
    base.push(' ');
    match display_mode {
        ItemDisplayMode::Alias => {
            match &item.alias {
                Some(a) => base.push_str(a.as_str()),
                None => base.push_str(filename.as_str()),
            }
        },
        ItemDisplayMode::Path => {
            base.push_str(filename.as_str());
            match &item.alias {
                Some(a) => {
                    base.push(' ');
                    base.push('/');
                    base.push(' ');
                    base.push_str(a.as_str());
                },
                None => {},
            }
        },
    }
    proof {
        let head = seq!['['] + mime_text(opt_view(item.mime_type)) + seq![']', ' '] + duration_text(
            item.duration,
        ) + seq![' '];
        match display_mode {
            ItemDisplayMode::Alias => {
                assert(base@ =~= base_line(*item, display_mode));
            },
            ItemDisplayMode::Path => {
                assert(base@ =~= base_line(*item, display_mode));
            },
        }
    }
    if playlist_count >= min_count && pane_width > 0 {
        let mut count_str = String::new();
        count_str.push('(');
        push_decimal(&mut count_str, playlist_count as u64);
        count_str.push(')');
        assert(count_str@ =~= count_text(playlist_count as nat));
        let base_len = char_len(base.as_str());
        let count_len = char_len(count_str.as_str());
        if base_len as u128 + (count_len as u128) < pane_width as u128 {
            let padding = pane_width as usize - base_len - count_len;
            let mut line = base;
            push_spaces(&mut line, padding);
            line.push_str(count_str.as_str());
            line
        } else {
            base
        }
    } else {
        base
    }
}

/// The title of a pane: the base name with markers for an applied filter and focus.
pub open spec fn title_text(base: Seq<char>, has_filter: bool, is_focused: bool) -> Seq<char> {
    seq![' '] + base + if has_filter {
        if is_focused {
            " [filtered] [*] "@
        } else {
            " [filtered] "@
        }
    } else if is_focused {
        " [*] "@
    } else {
        " "@
    }
}

/// The title of a pane.
pub fn pane_title(base: &str, has_filter: bool, is_focused: bool) -> (r: String)
    ensures
        r@ == title_text(base@, has_filter, is_focused),
{
    let mut s = String::new();
    s.push(' ');
    s.push_str(base);
    if has_filter {
        if is_focused {
            s.push_str(" [filtered] [*] ");
        } else {
            s.push_str(" [filtered] ");
        }
    } else if is_focused {
        s.push_str(" [*] ");
    } else {
        s.push_str(" ");
    }
    s
}

/// Total nanoseconds of the items that have a duration.
pub open spec fn summed_nanos(items: Seq<&PlaylistItem>) -> nat
    decreases items.len(),
{
    if items.len() == 0 {
        0
    } else {
        summed_nanos(items.drop_last()) + match items.last().duration {
            Some(d) => d@,
            None => 0,
        }
    }
}

/// The sum of the durations of the items, skipping items without one.
pub fn total_duration(items: &[&PlaylistItem]) -> (r: Duration)
    requires
        summed_nanos(items@) <= max_duration_nanos(),
    ensures
        r@ == summed_nanos(items@),
{
    let mut total = Duration::from_secs(0);
    let mut i: usize = 0;
    while i < items.len()
        invariant
            i <= items@.len(),
            summed_nanos(items@) <= max_duration_nanos(),
            total@ == summed_nanos(items@.take(i as int)),
        decreases items@.len() - i,
    {
        proof {
            assert(items@.take(i + 1).drop_last() =~= items@.take(i as int));
            lemma_summed_nanos_prefix(items@, i + 1);
        }
        match items[i].duration {
            Some(d) => {
                match total.checked_add(d) {
                    Some(t) => {
                        total = t;
                    },
                    None => {
                        assert(false);
                    },
                }
            },
            None => {},
        }
        i = i + 1;
    }
    assert(items@.take(items@.len() as int) =~= items@);
    total
}

proof fn lemma_summed_nanos_prefix(items: Seq<&PlaylistItem>, n: int)
    requires
        0 <= n <= items.len(),
    ensures
        summed_nanos(items.take(n)) <= summed_nanos(items),
    decreases items.len(),
{
    if n < items.len() {
        assert(items.drop_last().take(n) =~= items.take(n));
        lemma_summed_nanos_prefix(items.drop_last(), n);
    } else {
        assert(items.take(n) =~= items);
    }
}

/// The score that `fuzzy_matcher`'s `SkimMatcherV2` (default settings) gives when
/// matching `choice` against `pattern`, or `None` when it does not match.
pub uninterp spec fn skim_match_score(choice: Seq<char>, pattern: Seq<char>) -> Option<i64>;

/// Calls `SkimMatcherV2::default().fuzzy_match(choice, pattern)`. The contract ties
/// the result to `skim_match_score`, and states what the matcher's source shows for an
/// empty pattern: a match scoring 0. The scoring algorithm itself is left to
/// `fuzzy_matcher`.
#[verifier::external_body]
fn skim_fuzzy_match(choice: &str, pattern: &str) -> (r: Option<i64>)
    ensures
        r == skim_match_score(choice@, pattern@),
        pattern@.len() == 0 ==> r == Some(0i64),
{
    fuzzy_matcher::skim::SkimMatcherV2::default().fuzzy_match(choice, pattern)
}

/// The pattern a filter applies: the text being typed when there is any, else the
/// pattern applied earlier, if any.
pub open spec fn active_pattern(input: Seq<char>, applied: Option<Seq<char>>) -> Option<Seq<char>> {
    if input.len() == 0 {
        applied
    } else {
        Some(input)
    }
}

/// The score of an item's display name against a pattern.
pub open spec fn item_score(item: PlaylistItem, pattern: Seq<char>) -> Option<i64> {
    skim_match_score(display_name(item), pattern)
}

/// The scores of the items against a pattern, in item order.
pub open spec fn item_scores(items: Seq<PlaylistItem>, pattern: Seq<char>) -> Seq<Option<i64>> {
    Seq::new(items.len(), |i: int| item_score(items[i], pattern))
}

/// The score at index `i`, zero where there is none.
pub open spec fn score_at(scores: Seq<Option<i64>>, i: int) -> i64 {
    match scores[i] {
        Some(sc) => sc,
        None => 0,
    }
}

/// Position at which an index scoring `sc` goes into `ranked`: before the first
/// index with a lower score.
pub open spec fn score_insert_pos(ranked: Seq<int>, scores: Seq<Option<i64>>, sc: i64) -> nat
    decreases ranked.len(),
{
    if ranked.len() == 0 {
        0
    } else if score_at(scores, ranked[0]) < sc {
        0
    } else {
        1 + score_insert_pos(ranked.drop_first(), scores, sc)
    }
}

/// The indices that have a score, by decreasing score, equal scores in index order
/// (each such index inserted, in index order, after the indices with a score not
/// lower than its own).
pub open spec fn ranking_by_score(scores: Seq<Option<i64>>) -> Seq<int>
    decreases scores.len(),
{
    if scores.len() == 0 {
        Seq::empty()
    } else {
        let prev = ranking_by_score(scores.drop_last());
        let i = scores.len() - 1;
        match scores[i] {
            None => prev,
            Some(sc) => prev.insert(score_insert_pos(prev, scores, sc) as int, i),
        }
    }
}

/// The indices of the items that match `pattern`, by decreasing score, equal scores
/// in index order.
pub open spec fn fuzzy_ranking(items: Seq<PlaylistItem>, pattern: Seq<char>) -> Seq<int> {
    ranking_by_score(item_scores(items, pattern))
}

/// The indices of the items a pane shows, in display order: all of them when no
/// pattern is active, else the fuzzy ranking for the active pattern.
pub open spec fn filter_view(
    items: Seq<PlaylistItem>,
    input: Seq<char>,
    applied: Option<Seq<char>>,
) -> Seq<int> {
    match active_pattern(input, applied) {
        None => Seq::new(items.len(), |i: int| i),
        Some(p) => fuzzy_ranking(items, p),
    }
}

proof fn lemma_score_insert_pos_is(ranked: Seq<int>, scores: Seq<Option<i64>>, sc: i64, j: int)
    requires
        0 <= j <= ranked.len(),
        forall|k: int| 0 <= k < j ==> !(score_at(scores, #[trigger] ranked[k]) < sc),
        j < ranked.len() ==> score_at(scores, ranked[j]) < sc,
    ensures
        score_insert_pos(ranked, scores, sc) == j,
    decreases ranked.len(),
{
    if ranked.len() > 0 && j > 0 {
        assert(!(score_at(scores, ranked[0]) < sc));
        let rest = ranked.drop_first();
        assert forall|k: int| 0 <= k < j - 1 implies !(score_at(scores, #[trigger] rest[k]) < sc) by {
            assert(rest[k] == ranked[k + 1]);
        }
        if j - 1 < rest.len() {
            assert(rest[j - 1] == ranked[j]);
        }
        lemma_score_insert_pos_is(rest, scores, sc, j - 1);
    }
}

proof fn lemma_score_insert_pos_bound(ranked: Seq<int>, scores: Seq<Option<i64>>, sc: i64)
    ensures
        score_insert_pos(ranked, scores, sc) <= ranked.len(),
    decreases ranked.len(),
{
    if ranked.len() > 0 {
        lemma_score_insert_pos_bound(ranked.drop_first(), scores, sc);
    }
}

/// Every index of a ranking is an index of the scores, and there are no more of them
/// than scores.
pub proof fn lemma_ranking_bounds(scores: Seq<Option<i64>>)
    ensures
        forall|k: int| 0 <= k < ranking_by_score(scores).len()
            ==> 0 <= #[trigger] ranking_by_score(scores)[k] < scores.len(),
        ranking_by_score(scores).len() <= scores.len(),
    decreases scores.len(),
{
    if scores.len() > 0 {
        let prev = ranking_by_score(scores.drop_last());
        lemma_ranking_bounds(scores.drop_last());
        let i = scores.len() - 1;
        match scores[i] {
            None => {},
            Some(sc) => {
                lemma_score_insert_pos_bound(prev, scores, sc);
                let pos = score_insert_pos(prev, scores, sc) as int;
                let r = prev.insert(pos, i);
                assert forall|k: int| 0 <= k < r.len() implies 0 <= #[trigger] r[k] < scores.len() by {
                    if k < pos {
                        assert(r[k] == prev[k]);
                    } else if k > pos {
                        assert(r[k] == prev[k - 1]);
                    }
                }
            },
        }
    }
}

/// Every index of the fuzzy ranking is an index of `items`.
pub proof fn lemma_fuzzy_ranking_bounds(items: Seq<PlaylistItem>, pattern: Seq<char>)
    ensures
        forall|k: int| 0 <= k < fuzzy_ranking(items, pattern).len()
            ==> 0 <= #[trigger] fuzzy_ranking(items, pattern)[k] < items.len(),
        fuzzy_ranking(items, pattern).len() <= items.len(),
{
    lemma_ranking_bounds(item_scores(items, pattern));
}

proof fn lemma_ranking_extend(scores: Seq<Option<i64>>, n: int)
    requires
        0 < n <= scores.len(),
    ensures
        ranking_by_score(scores.take(n)) == ({
            let prev = ranking_by_score(scores.take(n - 1));
            match scores[n - 1] {
                None => prev,
                Some(sc) => prev.insert(score_insert_pos(prev, scores, sc) as int, n - 1),
            }
        }),
{
    let t = scores.take(n);
    assert(t.drop_last() =~= scores.take(n - 1));
    let prev = ranking_by_score(scores.take(n - 1));
    lemma_ranking_bounds(scores.take(n - 1));
    assert(t[n - 1] == scores[n - 1]);
    match scores[n - 1] {
        None => {},
        Some(sc) => {
            lemma_score_insert_pos_same(prev, t, scores, sc, n - 1);
        },
    }
}

proof fn lemma_score_insert_pos_same(
    ranked: Seq<int>,
    a: Seq<Option<i64>>,
    b: Seq<Option<i64>>,
    sc: i64,
    bound: int,
)
    requires
        forall|k: int| 0 <= k < ranked.len() ==> 0 <= #[trigger] ranked[k] < bound,
        bound <= a.len(),
        bound <= b.len(),
        forall|i: int| 0 <= i < bound ==> a[i] == b[i],
    ensures
        score_insert_pos(ranked, a, sc) == score_insert_pos(ranked, b, sc),
    decreases ranked.len(),
{
    if ranked.len() > 0 {
        assert(a[ranked[0]] == b[ranked[0]]);
        let rest = ranked.drop_first();
        assert forall|k: int| 0 <= k < rest.len() implies 0 <= #[trigger] rest[k] < bound by {
            assert(rest[k] == ranked[k + 1]);
        }
        lemma_score_insert_pos_same(rest, a, b, sc, bound);
    }
}

/// Ranks the indices of `scores` that have a score: by decreasing score, equal scores
/// in index order.
pub fn rank_by_score(scores: &[Option<i64>]) -> (r: Vec<usize>)
    ensures
        r@.len() == ranking_by_score(scores@).len(),
        forall|k: int| #![trigger r@[k]] 0 <= k < r@.len() ==> r@[k] as int == ranking_by_score(scores@)[k],
{
    let mut ranked: Vec<usize> = Vec::new();
    let mut keys: Vec<i64> = Vec::new();
    let mut i: usize = 0;
    assert(scores@.take(0) =~= Seq::<Option<i64>>::empty());
    while i < scores.len()
        invariant
            i <= scores@.len(),
            ranked@.len() == keys@.len(),
            ranked@.len() == ranking_by_score(scores@.take(i as int)).len(),
            forall|k: int| #![trigger ranked@[k]] 0 <= k < ranked@.len()
                ==> ranked@[k] as int == ranking_by_score(scores@.take(i as int))[k]
                    && ranked@[k] < i
                    && keys@[k] == score_at(scores@, ranked@[k] as int),
        decreases scores@.len() - i,
    {
        proof {
            lemma_ranking_extend(scores@, i + 1);
        }
        match scores[i] {
            None => {},
            Some(sc) => {
                let ghost prev = ranking_by_score(scores@.take(i as int));
                let mut j: usize = 0;
                while j < ranked.len() && !(keys[j] < sc)
                    invariant
                        j <= ranked@.len(),
                        ranked@.len() == keys@.len(),
                        ranked@.len() == prev.len(),
                        forall|k: int| #![trigger ranked@[k]] 0 <= k < ranked@.len()
                            ==> ranked@[k] as int == prev[k]
                                && keys@[k] == score_at(scores@, ranked@[k] as int),
                        forall|k: int| 0 <= k < j ==> !(score_at(scores@, #[trigger] prev[k]) < sc),
                    decreases ranked@.len() - j,
                {
                    assert(ranked@[j as int] as int == prev[j as int]);
                    j = j + 1;
                }
                proof {
                    if j < ranked@.len() {
                        assert(ranked@[j as int] as int == prev[j as int]);
                    }
                    lemma_score_insert_pos_is(prev, scores@, sc, j as int);
                }
                let ghost ranked_before = ranked@;
                ranked.insert(j, i);
                keys.insert(j, sc);
                proof {
                    let newr = prev.insert(j as int, i as int);
                    assert forall|k: int| #![trigger ranked@[k]] 0 <= k < ranked@.len()
                        implies ranked@[k] as int == newr[k] && ranked@[k] < i + 1
                            && keys@[k] == score_at(scores@, ranked@[k] as int) by {
                        if k < j {
                            assert(ranked@[k] == ranked_before[k]);
                        } else if k > j {
                            assert(ranked@[k] == ranked_before[k - 1]);
                        }
                    }
                }
            },
        }
        i = i + 1;
    }
    assert(scores@.take(scores@.len() as int) =~= scores@);
    ranked
}

/// Lists the items to show for a filter, each with its index in `items`: all of
/// them in order when no pattern is active, else those matching the active pattern
/// by decreasing fuzzy score.
pub fn filter_items<'a>(
    items: &'a [PlaylistItem],
    filter_input: &str,
    applied_filter: Option<&String>,
) -> (r: Vec<(usize, &'a PlaylistItem)>)
    ensures
        r@.len() == filter_view(items@, filter_input@, match applied_filter {
            Some(a) => Some(a@),
            None => None,
        }).len(),
        forall|k: int|
            #![trigger r@[k]]
            0 <= k < r@.len() ==> r@[k].0 == filter_view(items@, filter_input@, match applied_filter {
                Some(a) => Some(a@),
                None => None,
            })[k] && r@[k].0 < items@.len() && *r@[k].1 == items@[r@[k].0 as int],
{
    let pattern: Option<&str> = if filter_input.is_empty() {
        match applied_filter {
            Some(a) => Some(a.as_str()),
            None => None,
        }
    } else {
        Some(filter_input)
    };
    let ghost view = filter_view(items@, filter_input@, match applied_filter {
        Some(a) => Some(a@),
        None => None,
    });
    match pattern {
        None => {
            let mut r: Vec<(usize, &'a PlaylistItem)> = Vec::new();
            let mut i: usize = 0;
            while i < items.len()
                invariant
                    i <= items@.len(),
                    view == Seq::new(items@.len(), |j: int| j),
                    r@.len() == i,
                    forall|k: int| #![trigger r@[k]] 0 <= k < i ==> r@[k].0 == k && *r@[k].1 == items@[k],
                decreases items@.len() - i,
            {
                r.push((i, &items[i]));
                i = i + 1;
            }
            r
        },
        Some(p) => {
            let ghost pat = p@;
            let mut scores: Vec<Option<i64>> = Vec::new();
            let mut i: usize = 0;
            while i < items.len()
                invariant
                    i <= items@.len(),
                    pat == p@,
                    scores@.len() == i,
                    forall|k: int| #![trigger scores@[k]] 0 <= k < i ==> scores@[k] == item_score(items@[k], pat),
                decreases items@.len() - i,
            {
                let name = get_display_name(&items[i]);
                let score = skim_fuzzy_match(name.as_str(), p);
                scores.push(score);
                i = i + 1;
            }
            assert(scores@ =~= item_scores(items@, pat));
            assert(view == ranking_by_score(scores@));
            proof {
                lemma_ranking_bounds(scores@);
            }
            let ranked = rank_by_score(scores.as_slice());
            let mut r: Vec<(usize, &'a PlaylistItem)> = Vec::new();
            let mut k: usize = 0;
            while k < ranked.len()
                invariant
                    k <= ranked@.len(),
                    ranked@.len() == view.len(),
                    scores@.len() == items@.len(),
                    forall|m: int| 0 <= m < view.len() ==> 0 <= #[trigger] view[m] < scores@.len(),
                    forall|m: int| #![trigger ranked@[m]] 0 <= m < ranked@.len() ==> ranked@[m] as int == view[m],
                    r@.len() == k,
                    forall|m: int| #![trigger r@[m]] 0 <= m < k
                        ==> r@[m].0 == view[m] && r@[m].0 < items@.len() && *r@[m].1 == items@[r@[m].0 as int],
                decreases ranked@.len() - k,
            {
                let idx = ranked[k];
                assert(ranked@[k as int] as int == view[k as int]);
                r.push((idx, &items[idx]));
                k = k + 1;
            }
            r
        },
    }
}

/// Whether a filter decides what a pane shows: a pattern is being typed or applied.
pub open spec fn filter_engaged(f: Filter) -> bool {
    f.active || f.applied is Some
}

/// The indices of the items a pane shows, in display order.
pub open spec fn shown_indices(items: Seq<PlaylistItem>, f: Filter) -> Seq<int> {
    filter_view(items, f.input@, opt_view(f.applied))
}

/// The index in `items` of the selected row: the row of the shown list when a filter
/// is engaged, else the item at the selection itself; `None` when out of range.
pub open spec fn selected_index(items: Seq<PlaylistItem>, f: Filter, selected: nat) -> Option<int> {
    if filter_engaged(f) {
        if selected < shown_indices(items, f).len() {
            Some(shown_indices(items, f)[selected as int])
        } else {
            None
        }
    } else if selected < items.len() {
        Some(selected as int)
    } else {
        None
    }
}

/// The selected index, when there is one, is an index of `items`.
pub proof fn lemma_selected_index_bounds(items: Seq<PlaylistItem>, f: Filter, selected: nat)
    ensures
        selected_index(items, f, selected) matches Some(i) ==> 0 <= i < items.len(),
{
    match active_pattern(f.input@, opt_view(f.applied)) {
        Some(p) => {
            lemma_fuzzy_ranking_bounds(items, p);
        },
        None => {},
    }
}

/// The rows a pane shows for `items` under filter `f`, each with its index.
pub fn shown_rows<'a>(items: &'a Vec<PlaylistItem>, f: &Filter) -> (r: Vec<(usize, &'a PlaylistItem)>)
    ensures
        r@.len() == shown_indices(items@, *f).len(),
        forall|k: int|
            #![trigger r@[k]]
            0 <= k < r@.len() ==> r@[k].0 == shown_indices(items@, *f)[k] && r@[k].0 < items@.len()
                && *r@[k].1 == items@[r@[k].0 as int],
{
    filter_items(items.as_slice(), f.input.as_str(), f.applied.as_ref())
}

/// Computes [`selected_index`].
pub fn resolve_selected(items: &Vec<PlaylistItem>, f: &Filter, selected: usize) -> (r: Option<usize>)
    ensures
        r matches Some(i) ==> selected_index(items@, *f, selected as nat) == Some(i as int)
            && i < items@.len(),
        r is None ==> selected_index(items@, *f, selected as nat) is None,
{
    if f.active || f.applied.is_some() {
        let rows = shown_rows(items, f);
        if selected < rows.len() {
            Some(rows[selected].0)
        } else {
            None
        }
    } else if selected < items.len() {
        Some(selected)
    } else {
        None
    }
}

/// The number of rows a pane shows for `items` under filter `f`.
pub fn shown_len(items: &Vec<PlaylistItem>, f: &Filter) -> (n: usize)
    ensures
        n == shown_indices(items@, *f).len(),
{
    let rows = shown_rows(items, f);
    rows.len()
}

/// The selection after moving up one row.
pub open spec fn selection_after_up(items: Seq<PlaylistItem>, f: Filter, selected: nat) -> nat {
    if filter_engaged(f) {
        if selected > 0 && shown_indices(items, f).len() > 0 {
            (selected - 1) as nat
        } else {
            selected
        }
    } else if selected > 0 {
        (selected - 1) as nat
    } else {
        selected
    }
}

/// The selection after moving down one row.
pub open spec fn selection_after_down(items: Seq<PlaylistItem>, f: Filter, selected: nat) -> nat {
    if filter_engaged(f) {
        if shown_indices(items, f).len() > 0 && selected + 1 < shown_indices(items, f).len() {
            selected + 1
        } else {
            selected
        }
    } else if items.len() > 0 && selected + 1 < items.len() {
        selected + 1
    } else {
        selected
    }
}

/// The selection after moving up in a pane.
pub fn moved_up(items: &Vec<PlaylistItem>, f: &Filter, selected: usize) -> (r: usize)
    ensures
        r == selection_after_up(items@, *f, selected as nat),
{
    if f.active || f.applied.is_some() {
        let n = shown_len(items, f);
        if selected > 0 && n > 0 {
            selected - 1
        } else {
            selected
        }
    } else if selected > 0 {
        selected - 1
    } else {
        selected
    }
}

/// The selection after moving down in a pane.
pub fn moved_down(items: &Vec<PlaylistItem>, f: &Filter, selected: usize) -> (r: usize)
    ensures
        r == selection_after_down(items@, *f, selected as nat),
{
    if f.active || f.applied.is_some() {
        let n = shown_len(items, f);
        if n > 0 && selected < n - 1 {
            selected + 1
        } else {
            selected
        }
    } else if items.len() > 0 && selected < items.len() - 1 {
        selected + 1
    } else {
        selected
    }
}

/// The selection after removing an item: clamped to the last item when it falls past
/// the end of a non-empty list.
pub open spec fn clamped_selection(selected: nat, len: nat) -> nat {
    if selected >= len && len > 0 {
        (len - 1) as nat
    } else {
        selected
    }
}

} // verus!
