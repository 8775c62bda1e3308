//! The sources stored for a file: the URLs a user gives, cleaned before they are kept.
use vstd::prelude::*;

verus! {

/// Whether `c` is whitespace: Unicode's White_Space property, which is what
/// `char::is_whitespace` tests.
pub open spec fn is_white_space(c: char) -> bool {
    let u = c as u32;
    (0x9 <= u && u <= 0xd) || u == 0x20 || u == 0x85 || u == 0xa0 || u == 0x1680
        || (0x2000 <= u && u <= 0x200a) || u == 0x2028 || u == 0x2029 || u == 0x202f
        || u == 0x205f || u == 0x3000
}

/// `s` without its leading whitespace.
pub open spec fn trim_start(s: Seq<char>) -> Seq<char>
    decreases s.len(),
{
    if s.len() > 0 && is_white_space(s[0]) {
        trim_start(s.drop_first())
    } else {
        s
    }
}

/// `s` without its trailing whitespace.
pub open spec fn trim_end(s: Seq<char>) -> Seq<char>
    decreases s.len(),
{
    if s.len() > 0 && is_white_space(s.last()) {
        trim_end(s.drop_last())
    } else {
        s
    }
}

/// `s` without leading and trailing whitespace.
pub open spec fn trimmed(s: Seq<char>) -> Seq<char> {
    trim_end(trim_start(s))
}

/// Calls `str::trim`, which std documents as removing leading and trailing whitespace,
/// whitespace being Unicode's White_Space property; the contract says that much.
#[verifier::external_body]
fn std_trim(s: &str) -> (r: String)
    ensures
        r@ == trimmed(s@),
{
    s.trim().to_string()
}

/// The URLs that are kept of `urls`: each without surrounding whitespace, those left
/// empty dropped, in order.
pub open spec fn cleaned_sources(urls: Seq<String>) -> Seq<Seq<char>>
    decreases urls.len(),
{
    if urls.len() == 0 {
        Seq::empty()
    } else {
        let prev = cleaned_sources(urls.drop_last());
        let t = trimmed(urls.last()@);
        if t.len() == 0 {
            prev
        } else {
            prev.push(t)
        }
    }
}

/// The source URLs to store for a file: each given URL trimmed of surrounding
/// whitespace, in order, leaving out those that are blank.
pub fn clean_sources(urls: &[String]) -> (r: Vec<String>)
    ensures
        r@.map_values(|s: String| s@) == cleaned_sources(urls@),
{
    let mut r: Vec<String> = Vec::new();
    let mut i: usize = 0;
    assert(urls@.take(0) =~= Seq::<String>::empty());
    while i < urls.len()
        invariant
            i <= urls@.len(),
            r@.map_values(|s: String| s@) == cleaned_sources(urls@.take(i as int)),
        decreases urls@.len() - i,
    {
        let t = std_trim(urls[i].as_str());
        let ghost before = r@;
        proof {
            assert(urls@.take(i + 1).drop_last() =~= urls@.take(i as int));
            assert(urls@.take(i + 1).last() == urls@[i as int]);
        }
        if t.as_str().unicode_len() > 0 {
            r.push(t);
            assert(r@.map_values(|s: String| s@) =~= before.map_values(|s: String| s@).push(t@));
        }
        i = i + 1;
    }
    assert(urls@.take(urls@.len() as int) =~= urls@);
    r
}

} // verus!
