//! How item paths are written to and read back from playlist storage, as text.
use vstd::prelude::*;
use crate::common::{has_prefix, starts_with};
use crate::domain::ItemPath;
use crate::text::chars_of;

verus! {

/// Whether stored path text names a web URL rather than a file.
pub open spec fn is_web_url(text: Seq<char>) -> bool {
    has_prefix(text, "http://"@) || has_prefix(text, "https://"@)
}

/// The text under which an item path is stored: the file path or the URL.
pub fn item_path_to_path(item_path: &ItemPath) -> (r: String)
    ensures
        r@ == item_path@.1,
{
    match item_path {
        ItemPath::File(p) => p.clone(),
        ItemPath::Url(u) => u.clone(),
    }
}

/// The item path that stored text names: a URL when it starts with `http://` or
/// `https://`, a file otherwise.
pub fn pathbuf_to_item_path(path: String) -> (r: ItemPath)
    ensures
        r@ == (is_web_url(path@), path@),
{
    let cs = chars_of(path.as_str());
    let http = chars_of("http://");
    let https = chars_of("https://");
    if starts_with(&cs, &http) || starts_with(&cs, &https) {
        ItemPath::Url(path)
    } else {
        ItemPath::File(path)
    }
}

} // verus!
