//! What the which-key popup lists and where it goes: bindings grouped by category,
//! groups packed into columns, and the popup's rectangle.
use vstd::prelude::*;
use crate::tui_action::TuiAction;
use crate::which_key::{Key, WhichKeyPosition, key_text};
use vstd::utf8::encode_utf8;

verus! {

/// The kinds of bindings the popup lists under their own heading.
#[derive(Clone, Copy, Debug, PartialEq, Eq, Structural)]
pub enum KeyCategory {
    General,
    Navigation,
    PaneSwitch,
    ItemActions,
    PlaylistActions,
}

/// The category listed at position `i` of the popup.
pub open spec fn category_at(i: int) -> KeyCategory {
    if i == 0 {
        KeyCategory::General
    } else if i == 1 {
        KeyCategory::Navigation
    } else if i == 2 {
        KeyCategory::PaneSwitch
    } else if i == 3 {
        KeyCategory::ItemActions
    } else {
        KeyCategory::PlaylistActions
    }
}

/// The heading of a category.
pub open spec fn category_text(c: KeyCategory) -> Seq<char> {
    match c {
        KeyCategory::General => "General"@,
        KeyCategory::Navigation => "Navigation"@,
        KeyCategory::PaneSwitch => "Panes"@,
        KeyCategory::ItemActions => "Actions"@,
        KeyCategory::PlaylistActions => "Playlist"@,
    }
}

/// The heading of a category.
pub fn category_name(category: KeyCategory) -> (r: &'static str)
    ensures
        r@ == category_text(category),
{
    match category {
        KeyCategory::General => "General",
        KeyCategory::Navigation => "Navigation",
        KeyCategory::PaneSwitch => "Panes",
        KeyCategory::ItemActions => "Actions",
        KeyCategory::PlaylistActions => "Playlist",
    }
}

fn category_by_rank(i: usize) -> (c: KeyCategory)
    requires
        i < 5,
    ensures
        c == category_at(i as int),
{
    if i == 0 {
        KeyCategory::General
    } else if i == 1 {
        KeyCategory::Navigation
    } else if i == 2 {
        KeyCategory::PaneSwitch
    } else if i == 3 {
        KeyCategory::ItemActions
    } else {
        KeyCategory::PlaylistActions
    }
}

/// A single-key binding: its key, the action it triggers, its description and the
/// heading it is listed under.
#[derive(Clone, Debug)]
pub struct LeafBinding {
    pub key: Key,
    pub action: TuiAction,
    pub description: String,
    pub category: KeyCategory,
}

/// One line of the popup: a key and what it does.
#[derive(Clone, Debug)]
pub struct DisplayItem {
    pub key: Key,
    pub description: String,
}

impl DisplayItem {
    /// How the line's key is written.
    pub fn key_display(&self) -> (r: String)
        ensures
            r@ == key_text(self.key),
    {
        self.key.display()
    }

    /// What the line's key does.
    pub fn description(&self) -> (r: &str)
        ensures
            r@ == self.description@,
    {
        self.description.as_str()
    }
}

impl View for DisplayItem {
    type V = (Key, Seq<char>);

    open spec fn view(&self) -> (Key, Seq<char>) {
        (self.key, self.description@)
    }
}

/// The lines of a list of display items.
pub open spec fn items_view(items: Seq<DisplayItem>) -> Seq<(Key, Seq<char>)> {
    items.map_values(|d: DisplayItem| d@)
}

/// The groups of the popup, each with its lines.
pub open spec fn groups_view(groups: Seq<(KeyCategory, Vec<DisplayItem>)>) -> Seq<(KeyCategory, Seq<(Key, Seq<char>)>)> {
    groups.map_values(|g: (KeyCategory, Vec<DisplayItem>)| (g.0, items_view(g.1@)))
}

/// The lines for the bindings of category `c`, in binding order.
pub open spec fn bindings_in(bindings: Seq<LeafBinding>, c: KeyCategory) -> Seq<(Key, Seq<char>)>
    decreases bindings.len(),
{
    if bindings.len() == 0 {
        Seq::empty()
    } else {
        let p = bindings_in(bindings.drop_last(), c);
        if bindings.last().category == c {
            p.push((bindings.last().key, bindings.last().description@))
        } else {
            p
        }
    }
}

/// The lines for key sequences (prefix keys with their descriptions).
pub open spec fn branch_lines(branches: Seq<(Key, String)>) -> Seq<(Key, Seq<char>)> {
    branches.map_values(|b: (Key, String)| (b.0, b.1@))
}

/// The lines listed under category `c`: its bindings, and under the general heading
/// the key sequences after them.
pub open spec fn category_lines(
    bindings: Seq<LeafBinding>,
    branches: Seq<(Key, String)>,
    c: KeyCategory,
) -> Seq<(Key, Seq<char>)> {
    if c == KeyCategory::General {
        bindings_in(bindings, c) + branch_lines(branches)
    } else {
        bindings_in(bindings, c)
    }
}

/// The groups for the first `n` categories of the listing order, leaving out those
/// without lines.
pub open spec fn grouped_upto(
    bindings: Seq<LeafBinding>,
    branches: Seq<(Key, String)>,
    n: nat,
) -> Seq<(KeyCategory, Seq<(Key, Seq<char>)>)>
    decreases n,
{
    if n == 0 {
        Seq::empty()
    } else {
        let p = grouped_upto(bindings, branches, (n - 1) as nat);
        let c = category_at(n - 1);
        let lines = category_lines(bindings, branches, c);
        if lines.len() > 0 {
            p.push((c, lines))
        } else {
            p
        }
    }
}

/// The groups of the popup: each category with lines, in the listing order (general,
/// navigation, panes, actions, playlist).
pub open spec fn grouped(bindings: Seq<LeafBinding>, branches: Seq<(Key, String)>) -> Seq<(KeyCategory, Seq<(Key, Seq<char>)>)> {
    grouped_upto(bindings, branches, 5)
}

fn lines_for(bindings: &[LeafBinding], branches: &[(Key, String)], c: KeyCategory) -> (r: Vec<DisplayItem>)
    ensures
        items_view(r@) == category_lines(bindings@, branches@, c),
{
    let mut r: Vec<DisplayItem> = Vec::new();
    let mut i: usize = 0;
    while i < bindings.len()
        invariant
            i <= bindings@.len(),
            items_view(r@) == bindings_in(bindings@.take(i as int), c),
        decreases bindings@.len() - i,
    {
        let b = &bindings[i];
        proof {
            assert(bindings@.take(i + 1).drop_last() =~= bindings@.take(i as int));
            assert(bindings@.take(i + 1).last() == bindings@[i as int]);
        }
        if b.category == c {
            r.push(DisplayItem { key: b.key, description: b.description.clone() });
            assert(items_view(r@) =~= bindings_in(bindings@.take(i as int), c).push((b.key, b.description@)));
        }
        i = i + 1;
    }
    assert(bindings@.take(bindings@.len() as int) =~= bindings@);
    if c == KeyCategory::General {
        let ghost base = items_view(r@);
        let mut j: usize = 0;
        while j < branches.len()
            invariant
                j <= branches@.len(),
                items_view(r@) == base + branch_lines(branches@.take(j as int)),
            decreases branches@.len() - j,
        {
            let b = &branches[j];
            let d = DisplayItem { key: b.0, description: b.1.clone() };
            let ghost before = r@;
            r.push(d);
            proof {
                assert(items_view(r@) =~= items_view(before).push((b.0, b.1@)));
                assert(branch_lines(branches@.take(j + 1)) =~= branch_lines(branches@.take(j as int)).push(
                    (b.0, b.1@),
                ));
            }
            j = j + 1;
        }
        assert(branches@.take(branches@.len() as int) =~= branches@);
    }
    r
}

/// Groups the bindings of a pane by category, adds the key sequences under the
/// general heading, and orders the groups general, navigation, panes, actions,
/// playlist; categories without lines are left out.
pub fn group_by_category(bindings: &[LeafBinding], branches: &[(Key, String)]) -> (r: Vec<(KeyCategory, Vec<DisplayItem>)>)
    ensures
        groups_view(r@) == grouped(bindings@, branches@),
{
    let mut r: Vec<(KeyCategory, Vec<DisplayItem>)> = Vec::new();
    let mut n: usize = 0;
    while n < 5
        invariant
            n <= 5,
            groups_view(r@) == grouped_upto(bindings@, branches@, n as nat),
        decreases 5 - n,
    {
        let c = category_by_rank(n);
        let lines = lines_for(bindings, branches, c);
        if lines.len() > 0 {
            let ghost old_r = r@;
            r.push((c, lines));
            assert(groups_view(r@) =~= groups_view(old_r).push((c, items_view(lines@))));
        }
        n = n + 1;
    }
    r
}

/// The number of bytes of the UTF-8 text of `s`: the width the popup gives it.
pub open spec fn byte_len(s: Seq<char>) -> nat {
    encode_utf8(s).len()
}

/// The lines of a list of groups, in order.
pub open spec fn all_lines(groups: Seq<(KeyCategory, Seq<(Key, Seq<char>)>)>) -> Seq<(Key, Seq<char>)>
    decreases groups.len(),
{
    if groups.len() == 0 {
        Seq::empty()
    } else {
        all_lines(groups.drop_last()) + groups.last().1
    }
}

/// The widest key text (`keys`) or description (otherwise) among `lines`, 0 for none.
pub open spec fn widest(lines: Seq<(Key, Seq<char>)>, keys: bool) -> nat
    decreases lines.len(),
{
    if lines.len() == 0 {
        0
    } else {
        let w = if keys {
            byte_len(key_text(lines.last().0))
        } else {
            byte_len(lines.last().1)
        };
        let p = widest(lines.drop_last(), keys);
        if w > p {
            w
        } else {
            p
        }
    }
}

/// The widest key text or description among `lines`, or `default` when there is no line.
pub open spec fn width_or(lines: Seq<(Key, Seq<char>)>, keys: bool, default: nat) -> nat {
    if lines.len() == 0 {
        default
    } else {
        widest(lines, keys)
    }
}

/// A column of the popup: its groups and the widths of its key and description parts.
#[derive(Clone, Debug)]
pub struct ColumnData {
    pub categories: Vec<(KeyCategory, Vec<DisplayItem>)>,
    pub max_key_width: usize,
    pub max_desc_width: usize,
}

/// A column as groups of lines with the widths of its key and description parts.
pub open spec fn column_view(c: ColumnData) -> (Seq<(KeyCategory, Seq<(Key, Seq<char>)>)>, nat, nat) {
    (groups_view(c.categories@), c.max_key_width as nat, c.max_desc_width as nat)
}

/// The column made of `groups`: key part as wide as the widest key (5 without lines),
/// description part as wide as the widest description (10 without lines).
pub open spec fn column_of(groups: Seq<(KeyCategory, Seq<(Key, Seq<char>)>)>) -> (Seq<(KeyCategory, Seq<(Key, Seq<char>)>)>, nat, nat) {
    (groups, width_or(all_lines(groups), true, 5), width_or(all_lines(groups), false, 10))
}

fn text_width(s: &String) -> (n: usize)
    ensures
        n == byte_len(s@),
{
    let bytes: &[u8] = s.as_str().as_bytes();
    bytes.len()
}

/// Builds a column from its groups, measuring its widest key and description.
pub fn build_column_data(categories: Vec<(KeyCategory, Vec<DisplayItem>)>) -> (r: ColumnData)
    ensures
        r.categories == categories,
        column_view(r) == column_of(groups_view(categories@)),
{
    let ghost gv = groups_view(categories@);
    let mut key_w: usize = 0;
    let mut desc_w: usize = 0;
    let mut any: bool = false;
    let mut gi: usize = 0;
    while gi < categories.len()
        invariant
            gi <= categories@.len(),
            gv == groups_view(categories@),
            key_w == widest(all_lines(gv.take(gi as int)), true),
            desc_w == widest(all_lines(gv.take(gi as int)), false),
            any == (all_lines(gv.take(gi as int)).len() > 0),
        decreases categories@.len() - gi,
    {
        let items = &categories[gi].1;
        let ghost before = all_lines(gv.take(gi as int));
        proof {
            assert(gv.take(gi + 1).drop_last() =~= gv.take(gi as int));
            assert(gv.take(gi + 1).last() == gv[gi as int]);
            assert(gv[gi as int].1 == items_view(items@));
        }
        let mut ii: usize = 0;
        while ii < items.len()
            invariant
                ii <= items@.len(),
                key_w == widest(before + items_view(items@.take(ii as int)), true),
                desc_w == widest(before + items_view(items@.take(ii as int)), false),
                any == ((before + items_view(items@.take(ii as int))).len() > 0),
            decreases items@.len() - ii,
        {
            let d = &items[ii];
            let kd = d.key.display();
            let kw = text_width(&kd);
            let dw = text_width(&d.description);
            proof {
                let seen = before + items_view(items@.take(ii as int));
                let next = before + items_view(items@.take(ii + 1));
                assert(next =~= seen.push((d.key, d.description@)));
                assert(next.drop_last() =~= seen);
            }
            if kw > key_w {
                key_w = kw;
            }
            if dw > desc_w {
                desc_w = dw;
            }
            any = true;
            ii = ii + 1;
        }
        proof {
            assert(items_view(items@.take(ii as int)) =~= items_view(items@));
        }
        gi = gi + 1;
    }
    proof {
        assert(gv.take(gi as int) =~= gv);
    }
    let max_key_width = if any { key_w } else { 5 };
    let max_desc_width = if any { desc_w } else { 10 };
    ColumnData { categories, max_key_width, max_desc_width }
}

/// Packs groups into columns of `rows` rows, a group taking a row per line and one
/// for its heading: a group that does not fit under the groups already in the
/// current column starts a new column. Gives the finished columns, the current
/// column and the rows it uses.
pub open spec fn packed(
    groups: Seq<(KeyCategory, Seq<(Key, Seq<char>)>)>,
    rows: nat,
) -> (Seq<Seq<(KeyCategory, Seq<(Key, Seq<char>)>)>>, Seq<(KeyCategory, Seq<(Key, Seq<char>)>)>, nat)
    decreases groups.len(),
{
    if groups.len() == 0 {
        (Seq::empty(), Seq::empty(), 0)
    } else {
        let p = packed(groups.drop_last(), rows);
        let g = groups.last();
        let need = g.1.len() + 1;
        if p.2 + need > rows && p.2 > 0 {
            (p.0.push(p.1), seq![g], need)
        } else {
            (p.0, p.1.push(g), p.2 + need)
        }
    }
}

/// The columns of groups that fill a popup with `rows` rows for content.
pub open spec fn column_groups(
    groups: Seq<(KeyCategory, Seq<(Key, Seq<char>)>)>,
    rows: nat,
) -> Seq<Seq<(KeyCategory, Seq<(Key, Seq<char>)>)>> {
    let p = packed(groups, rows);
    if p.1.len() > 0 {
        p.0.push(p.1)
    } else {
        p.0
    }
}

/// A column in progress uses rows exactly when it holds a group.
pub proof fn lemma_packed_rows(groups: Seq<(KeyCategory, Seq<(Key, Seq<char>)>)>, rows: nat)
    ensures
        (packed(groups, rows).2 == 0) == (packed(groups, rows).1.len() == 0),
    decreases groups.len(),
{
    if groups.len() > 0 {
        lemma_packed_rows(groups.drop_last(), rows);
    }
}

/// Splits the groups into the columns of a popup of height `max_height`: two rows go
/// to its border, and each column takes groups, in order, while they fit (see
/// [`column_groups`]).
pub fn build_columns(categories: Vec<(KeyCategory, Vec<DisplayItem>)>, max_height: u16) -> (r: Vec<ColumnData>)
    ensures
        r@.map_values(|c: ColumnData| column_view(c)) == column_groups(
            groups_view(categories@),
            if max_height >= 2 { (max_height - 2) as nat } else { 0 },
        ).map_values(|gs: Seq<(KeyCategory, Seq<(Key, Seq<char>)>)>| column_of(gs)),
{
    let rows: usize = if max_height >= 2 { (max_height - 2) as usize } else { 0 };
    let ghost rows_n: nat = rows as nat;
    let ghost gv = groups_view(categories@);
    let mut src = categories;
    let mut columns: Vec<ColumnData> = Vec::new();
    let mut current: Vec<(KeyCategory, Vec<DisplayItem>)> = Vec::new();
    let mut used: usize = 0;
    let ghost mut k: int = 0;
    proof {
        assert(gv.take(0) =~= Seq::<(KeyCategory, Seq<(Key, Seq<char>)>)>::empty());
        assert(src@.skip(0) =~= src@);
    }
    while src.len() > 0
        invariant
            0 <= k <= gv.len(),
            rows <= 65533,
            rows_n == rows as nat,
            groups_view(src@) == gv.skip(k),
            columns@.map_values(|c: ColumnData| column_view(c)) == packed(gv.take(k), rows_n).0.map_values(
                |gs: Seq<(KeyCategory, Seq<(Key, Seq<char>)>)>| column_of(gs),
            ),
            groups_view(current@) == packed(gv.take(k), rows_n).1,
            used as int == if packed(gv.take(k), rows_n).2 > rows + 1 {
                rows + 1
            } else {
                packed(gv.take(k), rows_n).2 as int
            },
        decreases src@.len(),
    {
        let ghost p = packed(gv.take(k), rows_n);
        proof {
            lemma_packed_rows(gv.take(k), rows_n);
            assert(groups_view(src@).len() == src@.len());
            assert(k < gv.len());
            assert(gv.take(k + 1).drop_last() =~= gv.take(k));
            assert(groups_view(src@)[0] == gv[k]);
            assert(gv.take(k + 1).last() == gv[k]);
        }
        let ghost src_before = src@;
        let g = src.remove(0);
        proof {
            assert(src@ =~= src_before.drop_first());
            assert(groups_view(src@) =~= groups_view(src_before).drop_first());
        }
        let n = g.1.len();
        let overflows = used > 0 && (used > rows || n >= rows - used);
        if overflows {
            let mut finished: Vec<(KeyCategory, Vec<DisplayItem>)> = Vec::new();
            std::mem::swap(&mut finished, &mut current);
            let ghost done = groups_view(finished@);
            let col = build_column_data(finished);
            let ghost before = columns@;
            columns.push(col);
            current.push(g);
            used = if n >= rows { rows + 1 } else { n + 1 };
            proof {
                assert(columns@.map_values(|c: ColumnData| column_view(c)) =~= before.map_values(
                    |c: ColumnData| column_view(c),
                ).push(column_of(done)));
                assert(p.0.push(p.1).map_values(|gs: Seq<(KeyCategory, Seq<(Key, Seq<char>)>)>| column_of(gs))
                    =~= p.0.map_values(|gs: Seq<(KeyCategory, Seq<(Key, Seq<char>)>)>| column_of(gs)).push(
                    column_of(p.1),
                ));
                assert(groups_view(current@) =~= seq![gv[k]]);
            }
        } else {
            let ghost before = current@;
            current.push(g);
            used = if used == 0 {
                if n >= rows { rows + 1 } else { n + 1 }
            } else {
                used + n + 1
            };
            proof {
                assert(groups_view(current@) =~= groups_view(before).push(gv[k]));
            }
        }
        proof {
            assert(gv.skip(k + 1) =~= gv.skip(k).drop_first());
            k = k + 1;
        }
    }
    proof {
        assert(gv.take(k) =~= gv);
        lemma_packed_rows(gv, rows_n);
    }
    if current.len() > 0 {
        let ghost before = columns@;
        let ghost last = groups_view(current@);
        let col = build_column_data(current);
        columns.push(col);
        proof {
            let p = packed(gv, rows_n);
            assert(columns@.map_values(|c: ColumnData| column_view(c)) =~= before.map_values(
                |c: ColumnData| column_view(c),
            ).push(column_of(last)));
            assert(p.0.push(p.1).map_values(|gs: Seq<(KeyCategory, Seq<(Key, Seq<char>)>)>| column_of(gs))
                =~= p.0.map_values(|gs: Seq<(KeyCategory, Seq<(Key, Seq<char>)>)>| column_of(gs)).push(
                column_of(p.1),
            ));
        }
    }
    columns
}

/// A rectangle of the terminal, in cells.
#[derive(Clone, Copy, Debug, PartialEq, Eq)]
pub struct Rect {
    pub x: u16,
    pub y: u16,
    pub width: u16,
    pub height: u16,
}

/// `a - b`, or 0 when `b` is larger.
pub open spec fn minus(a: int, b: int) -> int {
    if a >= b {
        a - b
    } else {
        0
    }
}

/// The smaller of `a` and `b`.
pub open spec fn least(a: int, b: int) -> int {
    if a <= b {
        a
    } else {
        b
    }
}

/// Where a popup showing `content_width` columns of text goes in a frame of
/// `frame_width` by `frame_height` cells: four columns wider than its text and at most
/// `max_height` rows high, within the frame less a margin of one cell on each side,
/// against the bottom edge, at the left or right as `position` says.
pub open spec fn popup_rect_of(
    position: WhichKeyPosition,
    frame_width: u16,
    frame_height: u16,
    content_width: int,
    max_height: u16,
) -> Rect {
    let w = least(content_width + 4, minus(frame_width as int, 2));
    let h = least(max_height as int, minus(frame_height as int, 2));
    Rect {
        x: match position {
            WhichKeyPosition::BottomLeft => 1,
            WhichKeyPosition::BottomRight => minus(minus(frame_width as int, w), 1) as u16,
        },
        y: minus(minus(frame_height as int, h), 1) as u16,
        width: w as u16,
        height: h as u16,
    }
}

/// Places a popup showing `content_width` columns of text (see [`popup_rect_of`]).
pub fn popup_rect(
    position: WhichKeyPosition,
    frame_width: u16,
    frame_height: u16,
    content_width: usize,
    max_height: u16,
) -> (r: Rect)
    requires
        content_width + 4 <= usize::MAX,
    ensures
        r == popup_rect_of(position, frame_width, frame_height, content_width as int, max_height),
{
    let avail_w: u16 = if frame_width >= 2 { frame_width - 2 } else { 0 };
    let width: u16 = if content_width + 4 <= avail_w as usize { (content_width + 4) as u16 } else { avail_w };
    let avail_h: u16 = if frame_height >= 2 { frame_height - 2 } else { 0 };
    let height: u16 = if max_height <= avail_h { max_height } else { avail_h };
    let x: u16 = match position {
        WhichKeyPosition::BottomLeft => 1,
        WhichKeyPosition::BottomRight => {
            let room: u16 = if frame_width >= width { frame_width - width } else { 0 };
            if room >= 1 { room - 1 } else { 0 }
        },
    };
    let room_h: u16 = if frame_height >= height { frame_height - height } else { 0 };
    let y: u16 = if room_h >= 1 { room_h - 1 } else { 0 };
    Rect { x, y, width, height }
}

/// The width of a column's text: key part, a space, description part.
pub open spec fn column_width(c: ColumnData) -> int {
    c.max_key_width + 1 + c.max_desc_width
}

impl ColumnData {
    /// The width of the column's text: key part, a space, description part.
    pub fn content_width(&self) -> (w: usize)
        requires
            column_width(*self) <= usize::MAX,
        ensures
            w == column_width(*self),
    {
        self.max_key_width + 1 + self.max_desc_width
    }
}

/// The widths of the first `n` columns added up, each cut to 16 bits as the popup
/// measures them.
pub open spec fn columns_width(columns: Seq<ColumnData>, n: nat) -> int
    decreases n,
{
    if n == 0 {
        0
    } else {
        columns_width(columns, (n - 1) as nat) + (column_width(columns[n - 1]) as u16)
    }
}

/// The gaps between `n` columns, one cell each, counted as the popup counts them.
pub open spec fn gaps_width(n: nat) -> int {
    (minus(n as int, 1) as usize) as u16 as int
}

/// Places the popup listing `columns` side by side, one cell apart.
pub fn calculate_popup_area(
    position: WhichKeyPosition,
    frame_area: Rect,
    columns: &[ColumnData],
    max_height: u16,
) -> (r: Rect)
    requires
        forall|i: int| 0 <= i < columns@.len() ==> column_width(#[trigger] columns@[i]) <= usize::MAX,
        forall|n: nat| n <= columns@.len() ==> #[trigger] columns_width(columns@, n) <= u16::MAX,
        columns_width(columns@, columns@.len()) + gaps_width(columns@.len()) + 4 <= u16::MAX,
    ensures
        r == popup_rect_of(
            position,
            frame_area.width,
            frame_area.height,
            columns_width(columns@, columns@.len()) + gaps_width(columns@.len()),
            max_height,
        ),
{
    let mut total: u16 = 0;
    let mut i: usize = 0;
    while i < columns.len()
        invariant
            i <= columns@.len(),
            total == columns_width(columns@, i as nat),
            forall|j: int| 0 <= j < columns@.len() ==> column_width(#[trigger] columns@[j]) <= usize::MAX,
            forall|n: nat| n <= columns@.len() ==> #[trigger] columns_width(columns@, n) <= u16::MAX,
        decreases columns@.len() - i,
    {
        let w = columns[i].content_width();
        proof {
            assert(columns_width(columns@, (i + 1) as nat) <= u16::MAX);
        }
        total = total + (w as u16);
        i = i + 1;
    }
    let gaps: u16 = (if columns.len() >= 1 { columns.len() - 1 } else { 0 }) as u16;
    popup_rect(position, frame_area.width, frame_area.height, (total + gaps) as usize, max_height)
}

/// The left edge of column `k` when columns are laid out from `x0`, one cell apart.
pub open spec fn column_x(columns: Seq<ColumnData>, x0: int, k: nat) -> int
    decreases k,
{
    if k == 0 {
        x0
    } else {
        column_x(columns, x0, (k - 1) as nat) + (column_width(columns[k - 1]) as u16) + 1
    }
}

/// The areas of the columns inside the popup: side by side from the left edge, one
/// cell apart, each as wide as its text and as high as the popup's inside.
pub fn layout_columns(columns: &[ColumnData], inner_area: Rect) -> (r: Vec<Rect>)
    requires
        forall|i: int| 0 <= i < columns@.len() ==> column_width(#[trigger] columns@[i]) <= usize::MAX,
        forall|n: nat| n <= columns@.len() ==> #[trigger] column_x(columns@, inner_area.x as int, n) <= u16::MAX,
    ensures
        r@.len() == columns@.len(),
        forall|k: int|
            0 <= k < r@.len() ==> #[trigger] r@[k] == (Rect {
                x: column_x(columns@, inner_area.x as int, k as nat) as u16,
                y: inner_area.y,
                width: column_width(columns@[k]) as u16,
                height: inner_area.height,
            }),
{
    let mut r: Vec<Rect> = Vec::new();
    let mut x: u16 = inner_area.x;
    let mut i: usize = 0;
    while i < columns.len()
        invariant
            i <= columns@.len(),
            r@.len() == i,
            x == column_x(columns@, inner_area.x as int, i as nat),
            forall|j: int| 0 <= j < columns@.len() ==> column_width(#[trigger] columns@[j]) <= usize::MAX,
            forall|n: nat| n <= columns@.len() ==> #[trigger] column_x(columns@, inner_area.x as int, n) <= u16::MAX,
            forall|k: int|
                0 <= k < i ==> #[trigger] r@[k] == (Rect {
                    x: column_x(columns@, inner_area.x as int, k as nat) as u16,
                    y: inner_area.y,
                    width: column_width(columns@[k]) as u16,
                    height: inner_area.height,
                }),
        decreases columns@.len() - i,
    {
        let width = columns[i].content_width() as u16;
        r.push(Rect { x, y: inner_area.y, width, height: inner_area.height });
        proof {
            assert(column_x(columns@, inner_area.x as int, (i + 1) as nat) <= u16::MAX);
        }
        x = x + width + 1;
        i = i + 1;
    }
    r
}

/// The width of the text of the popup listing the keys that may follow a pending
/// sequence: the widest key, a space, the widest description.
pub fn sequence_content_width(items: &[(Key, String)]) -> (w: usize)
    requires
        items@.len() > 0,
        widest(branch_lines(items@), true) + 1 + widest(branch_lines(items@), false) <= usize::MAX,
    ensures
        w == widest(branch_lines(items@), true) + 1 + widest(branch_lines(items@), false),
{
    let mut key_w: usize = 0;
    let mut desc_w: usize = 0;
    let mut i: usize = 0;
    while i < items.len()
        invariant
            i <= items@.len(),
            key_w == widest(branch_lines(items@.take(i as int)), true),
            desc_w == widest(branch_lines(items@.take(i as int)), false),
        decreases items@.len() - i,
    {
        let kd = items[i].0.display();
        let kw = text_width(&kd);
        let dw = text_width(&items[i].1);
        proof {
            let next = branch_lines(items@.take(i + 1));
            assert(next.drop_last() =~= branch_lines(items@.take(i as int)));
            assert(next.last() == (items@[i as int].0, items@[i as int].1@));
        }
        if kw > key_w {
            key_w = kw;
        }
        if dw > desc_w {
            desc_w = dw;
        }
        i = i + 1;
    }
    proof {
        assert(items@.take(items@.len() as int) =~= items@);
    }
    key_w + 1 + desc_w
}

} // verus!
