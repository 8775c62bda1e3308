//! Naming the link that makes a file available under a directory without clobbering
//! an existing entry: the file's own name first, then `stem_1.ext`, `stem_2.ext`, ...
use vstd::prelude::*;
use crate::domain::{path_extension, path_file_name, path_file_stem, std_file_name, std_file_stem};
use crate::laws::law_numbered_names_differ;
use crate::text::{decimal, owned, push_decimal};
use vstd::relations::injective_on;
use vstd::set_lib::{lemma_int_range, lemma_len_subset, lemma_map_size, set_int_range};

verus! {

/// A link could not be named: the target has no file name (or stem) to use.
#[derive(Clone, Copy, Debug, PartialEq, Eq)]
pub struct SymlinkError;

/// Calls `std::path::Path::extension` on `path`. The contract states what std
/// documents: no extension without a file name, nor when the name has no `.` or its
/// only `.` starts it; else the part after the last `.`.
#[verifier::external_body]
fn std_extension(path: &str) -> (r: Option<String>)
    ensures
        r matches Some(s) ==> path_extension(path@) == Some(s@),
        r is None ==> path_extension(path@) is None,
{
    std::path::Path::new(path).extension().map(|s| s.to_string_lossy().into_owned())
}

/// `stem_N.ext`, or `stem_N` without an extension.
pub open spec fn suffixed_text(stem: Seq<char>, ext: Option<Seq<char>>, suffix: nat) -> Seq<char> {
    let base = stem + "_"@ + decimal(suffix);
    match ext {
        Some(e) => base + "."@ + e,
        None => base,
    }
}

/// The name tried at attempt `attempt` for a link to `target`: its file name first,
/// then its stem with the attempt number and its extension.
pub open spec fn link_name_text(target: Seq<char>, attempt: nat) -> Result<Seq<char>, SymlinkError> {
    if attempt == 0 {
        match path_file_name(target) {
            Some(n) => Ok(n),
            None => Err(SymlinkError),
        }
    } else {
        match path_file_stem(target) {
            Some(st) => Ok(suffixed_text(st, path_extension(target), attempt)),
            None => Err(SymlinkError),
        }
    }
}

/// Builds `stem_N.ext`, or `stem_N` when there is no extension.
pub fn suffixed_name(stem: &str, ext: Option<&str>, suffix: u64) -> (r: String)
    ensures
        r@ == suffixed_text(stem@, match ext {
            Some(e) => Some(e@),
            None => None,
        }, suffix as nat),
{
    let mut r = owned(stem);
    r.push('_');
    push_decimal(&mut r, suffix);
    match ext {
        Some(e) => {
            r.push('.');
            r.push_str(e);
        },
        None => {},
    }
    proof {
        reveal_strlit("_");
        reveal_strlit(".");
    }
    r
}

/// The name to try at attempt `attempt` (counting from 0) for a link to `target`:
/// the target's file name, then `stem_N.ext`; an error when the target has no file
/// name, or no stem to number.
pub fn link_name(target: &str, attempt: u64) -> (r: Result<String, SymlinkError>)
    ensures
        match r {
            Ok(s) => link_name_text(target@, attempt as nat) == Ok::<Seq<char>, SymlinkError>(s@),
            Err(e) => link_name_text(target@, attempt as nat) == Err::<Seq<char>, SymlinkError>(e),
        },
{
    if attempt == 0 {
        match std_file_name(target) {
            Some(n) => Ok(n),
            None => Err(SymlinkError),
        }
    } else {
        match std_file_stem(target) {
            Some(st) => {
                let ext = std_extension(target);
                let ext_ref: Option<&str> = match &ext {
                    Some(e) => Some(e.as_str()),
                    None => None,
                };
                Ok(suffixed_name(st.as_str(), ext_ref, attempt))
            },
            None => Err(SymlinkError),
        }
    }
}

/// Whether `name` is one of the names in `taken`.
pub open spec fn name_taken(taken: Seq<String>, name: Seq<char>) -> bool {
    exists|i: int| 0 <= i < taken.len() && (#[trigger] taken[i])@ == name
}

/// Every attempt before `n` gives a name, and each of those names is taken.
pub open spec fn taken_before(target: Seq<char>, taken: Seq<String>, n: nat) -> bool {
    forall|m: nat| m < n ==> match #[trigger] link_name_text(target, m) {
        Ok(s) => name_taken(taken, s),
        Err(_) => false,
    }
}

/// What looking for a free name for a link to `target` gives when the entries `taken`
/// exist: the name of the first attempt whose name is free, or the error of the first
/// attempt that cannot be named, whichever comes first.
pub open spec fn free_link_name_text(target: Seq<char>, taken: Seq<String>, r: Result<Seq<char>, SymlinkError>) -> bool {
    exists|n: nat| #[trigger] taken_before(target, taken, n) && match link_name_text(target, n) {
        Ok(s) => !name_taken(taken, s) && r == Ok::<Seq<char>, SymlinkError>(s),
        Err(e) => r == Err::<Seq<char>, SymlinkError>(e),
    }
}

/// Whether `name` is one of the names in `taken`.
pub fn name_listed(taken: &[String], name: &String) -> (r: bool)
    ensures
        r == name_taken(taken@, name@),
{
    let mut i: usize = 0;
    while i < taken.len()
        invariant
            i <= taken@.len(),
            forall|k: int| 0 <= k < i ==> (#[trigger] taken@[k])@ != name@,
        decreases taken@.len() - i,
    {
        if taken[i] == *name {
            return true;
        }
        i = i + 1;
    }
    false
}

/// With `k` names taken, the numbered names of the attempts `1` to `k + 1` cannot all
/// be taken: they are `k + 1` different names.
proof fn lemma_some_numbered_name_free(target: Seq<char>, taken: Seq<String>)
    ensures
        !taken_before(target, taken, taken.len() + 2),
{
    if taken_before(target, taken, taken.len() + 2) {
        let k: int = taken.len() as int;
        let first = link_name_text(target, 1);
        assert(first matches Ok(_));
        let st = path_file_stem(target)->Some_0;
        let ext = path_extension(target);
        let f = |i: int| suffixed_text(st, ext, i as nat);
        let xs = set_int_range(1, k + 2);
        lemma_int_range(1, k + 2);
        assert(injective_on(f, xs)) by {
            assert forall|i1: int, i2: int| xs.contains(i1) && xs.contains(i2) && #[trigger] f(i1) == #[trigger] f(i2) implies i1 == i2 by {
                if i1 != i2 {
                    law_numbered_names_differ(st, ext, i1 as nat, i2 as nat);
                }
            }
        }
        let ys = xs.map(f);
        lemma_map_size(xs, ys, f);
        let names = taken.map_values(|x: String| x@);
        let ts = names.to_set();
        names.lemma_cardinality_of_set();
        assert(ys.subset_of(ts)) by {
            assert forall|y: Seq<char>| ys.contains(y) implies ts.contains(y) by {
                let i = choose|i: int| xs.contains(i) && f(i) == y;
                let m = i as nat;
                assert(m < k + 2);
                assert(link_name_text(target, m) == Ok::<Seq<char>, SymlinkError>(y));
                let j = choose|j: int| 0 <= j < taken.len() && (#[trigger] taken[j])@ == y;
                assert(names[j] == y);
                assert(names.contains(y));
            }
        }
        broadcast use vstd::seq_lib::seq_to_set_is_finite;
        lemma_len_subset(ys, ts);
    }
}

/// Looks for a name for a link to `target` in a directory whose entries are `taken`:
/// the target's file name, then `stem_1.ext`, `stem_2.ext`, ..., the first that is not
/// taken; an error when an attempt cannot be named before a free name is found.
pub fn free_link_name(target: &str, taken: &[String]) -> (r: Result<String, SymlinkError>)
    requires
        taken@.len() + 1 < u64::MAX,
    ensures
        free_link_name_text(target@, taken@, match r {
            Ok(s) => Ok::<Seq<char>, SymlinkError>(s@),
            Err(e) => Err::<Seq<char>, SymlinkError>(e),
        }),
{
    let mut attempt: u64 = 0;
    loop
        invariant
            attempt <= taken@.len() + 1,
            taken@.len() + 1 < u64::MAX,
            taken_before(target@, taken@, attempt as nat),
        decreases taken@.len() + 1 - attempt,
    {
        let name = match link_name(target, attempt) {
            Ok(n) => n,
            Err(e) => {
                assert(taken_before(target@, taken@, attempt as nat));
                return Err(e);
            },
        };
        if !name_listed(taken, &name) {
            assert(taken_before(target@, taken@, attempt as nat));
            return Ok(name);
        }
        assert(taken_before(target@, taken@, attempt as nat + 1)) by {
            assert forall|m: nat| m < attempt as nat + 1 implies match #[trigger] link_name_text(target@, m) {
                Ok(s) => name_taken(taken@, s),
                Err(_) => false,
            } by {
                if m < attempt as nat {
                } else {
                    assert(m == attempt as nat);
                }
            }
        }
        proof {
            lemma_some_numbered_name_free(target@, taken@);
        }
        attempt = attempt + 1;
    }
}

} // verus!
