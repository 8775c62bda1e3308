//! What a pane shows besides its rows' text: which row is highlighted, whether an
//! item's file is missing, and the footer.
use vstd::prelude::*;
use crate::common::{duration_text, format_duration};
use crate::domain::{Duration, PlaylistItem};
use crate::text::owned;

verus! {

/// Whether the row at `row` is drawn highlighted: it is the selection and the pane
/// has the focus and no pattern is being typed.
pub fn row_selected(row: usize, selected: usize, is_focused: bool, is_filtering: bool) -> (r: bool)
    ensures
        r == (row == selected && is_focused && !is_filtering),
{
    row == selected && is_focused && !is_filtering
}

/// The row the list widget marks as selected: none while a pattern is being typed or
/// when the selection is past the shown rows.
pub fn list_selection(is_filtering: bool, rows: usize, selected: usize) -> (r: Option<usize>)
    ensures
        r == if !is_filtering && rows > 0 && selected < rows {
            Some(selected)
        } else {
            None
        },
{
    if !is_filtering && rows > 0 && selected < rows {
        Some(selected)
    } else {
        None
    }
}

/// Whether an item is shown as missing: it is not a URL entry and is not a file that
/// exists (`file_exists` tells whether the item's file was found on disk).
pub fn item_missing(item: &PlaylistItem, file_exists: bool) -> (r: bool)
    ensures
        r == (!item.is_virtual && !(!item.path@.0 && file_exists)),
{
    let found = match item.path.as_file() {
        Some(_) => file_exists,
        None => false,
    };
    !found && !item.is_virtual
}

/// The text of a pane's footer: the pattern being typed with a cursor, or the total
/// duration of the shown rows.
pub open spec fn footer_text_of(is_filtering: bool, input: Seq<char>, total: Duration) -> Seq<char> {
    if is_filtering {
        "Filter: "@ + input + seq!['█']
    } else {
        "Total: "@ + duration_text(Some(total))
    }
}

/// The text of a pane's footer (see [`footer_text_of`]).
pub fn footer_text(is_filtering: bool, input: &str, total: Duration) -> (r: String)
    ensures
        r@ == footer_text_of(is_filtering, input@, total),
{
    if is_filtering {
        let mut s = owned("Filter: ");
        s.push_str(input);
        s.push('█');
        s
    } else {
        let mut s = owned("Total: ");
        let d = format_duration(Some(total));
        s.push_str(d.as_str());
        s
    }
}

/// A text field's content with the cursor after it.
pub fn with_cursor(input: &str) -> (r: String)
    ensures
        r@ == input@ + seq!['█'],
{
    let mut s = owned(input);
    s.push('█');
    s
}

} // verus!
