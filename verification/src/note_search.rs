//! What fuzzy search matches each known file against: its note, or else its name.
use vstd::prelude::*;
use crate::domain::{path_file_name, std_file_name};

verus! {

/// The text fuzzy search matches a file against: its note when it has one, else its
/// file name, else its whole path.
pub open spec fn search_text(path: Seq<char>, note: Option<Seq<char>>) -> Seq<char> {
    match note {
        Some(n) => n,
        None => match path_file_name(path) {
            Some(name) => name,
            None => path,
        },
    }
}

/// Pairs each known path with the text fuzzy search matches it against: its note when
/// it has one, else its file name, else the path itself; in the order given.
pub fn search_entries(rows: Vec<(String, Option<String>)>) -> (r: Vec<(String, String)>)
    ensures
        r@.len() == rows@.len(),
        forall|k: int| 0 <= k < r@.len() ==> (#[trigger] r@[k]).0 == rows@[k].0
            && r@[k].1@ == search_text(rows@[k].0@, match rows@[k].1 {
                Some(n) => Some(n@),
                None => None,
            }),
{
    let ghost orig = rows@;
    let mut rows = rows;
    let mut r: Vec<(String, String)> = Vec::new();
    let ghost mut done: int = 0;
    assert(orig.skip(0) =~= orig);
    while rows.len() > 0
        invariant
            0 <= done <= orig.len(),
            rows@ == orig.skip(done),
            r@.len() == done,
            forall|k: int| 0 <= k < done ==> (#[trigger] r@[k]).0 == orig[k].0
                && r@[k].1@ == search_text(orig[k].0@, match orig[k].1 {
                    Some(n) => Some(n@),
                    None => None,
                }),
        decreases rows@.len(),
    {
        let ghost before = rows@;
        let (path, note) = rows.remove(0);
        proof {
            assert(rows@ =~= before.drop_first());
            assert(orig[done] == (path, note));
        }
        let text = match note {
            Some(n) => n,
            None => match std_file_name(path.as_str()) {
                Some(name) => name,
                None => path.clone(),
            },
        };
        r.push((path, text));
        proof {
            assert(orig.skip(done + 1) =~= orig.skip(done).drop_first());
            done = done + 1;
        }
    }
    r
}

} // verus!
