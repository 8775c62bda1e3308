//! The items shown in the panes: paths, durations and item records.
use vstd::prelude::*;
use crate::text::chars_of;

verus! {

/// Largest number of nanoseconds a [`Duration`] can hold.
pub open spec fn max_duration_nanos() -> nat {
    18446744073709551615nat * 1_000_000_000nat + 999_999_999nat
}

/// A span of time made of whole seconds and a nanosecond part below one second.
#[derive(Clone, Copy, Debug, PartialEq, Eq)]
pub struct Duration {
    secs: u64,
    nanos: u32,
}

impl Duration {
    #[verifier::type_invariant]
    spec fn nanos_below_one_second(self) -> bool {
        self.nanos < 1_000_000_000
    }

    /// Total length in nanoseconds.
    pub closed spec fn total_nanos(self) -> nat {
        (self.secs as nat) * 1_000_000_000nat + (self.nanos as nat)
    }

    /// A duration of `secs` whole seconds.
    pub fn from_secs(secs: u64) -> (d: Duration)
        ensures
            d@ == (secs as nat) * 1_000_000_000nat,
    {
        Duration { secs, nanos: 0 }
    }

    /// A duration of `secs` seconds and `nanos` nanoseconds; nanoseconds beyond
    /// one second carry into the seconds.
    pub fn new(secs: u64, nanos: u32) -> (d: Duration)
        requires
            secs + nanos / 1_000_000_000 <= u64::MAX,
        ensures
            d@ == (secs as nat) * 1_000_000_000nat + (nanos as nat),
    {
        let carry: u64 = (nanos / 1_000_000_000) as u64;
        let rest: u32 = nanos % 1_000_000_000;
        Duration { secs: secs + carry, nanos: rest }
    }

    /// Whole seconds of the duration.
    pub fn as_secs(&self) -> (s: u64)
        ensures
            s == self@ / 1_000_000_000nat,
    {
        proof {
            use_type_invariant(self);
            vstd::arithmetic::div_mod::lemma_fundamental_div_mod_converse(
                self@ as int, 1_000_000_000, self.secs as int, self.nanos as int);
        }
        self.secs
    }

    /// The part of the duration below one second, in nanoseconds.
    pub fn subsec_nanos(&self) -> (n: u32)
        ensures
            n == self@ % 1_000_000_000nat,
    {
        proof {
            use_type_invariant(self);
            vstd::arithmetic::div_mod::lemma_fundamental_div_mod_converse(
                self@ as int, 1_000_000_000, self.secs as int, self.nanos as int);
        }
        self.nanos
    }

    /// The sum of two durations, or `None` when it does not fit.
    pub fn checked_add(self, other: Duration) -> (r: Option<Duration>)
        ensures
            r is None <==> self@ + other@ > max_duration_nanos(),
            r matches Some(d) ==> d@ == self@ + other@,
    {
        proof {
            use_type_invariant(&self);
            use_type_invariant(&other);
        }
        let nanos_sum: u32 = self.nanos + other.nanos;
        if nanos_sum >= 1_000_000_000 {
            if self.secs as u128 + other.secs as u128 + 1 > u64::MAX as u128 {
                None
            } else {
                Some(Duration { secs: self.secs + other.secs + 1, nanos: nanos_sum - 1_000_000_000 })
            }
        } else {
            if self.secs as u128 + other.secs as u128 > u64::MAX as u128 {
                None
            } else {
                Some(Duration { secs: self.secs + other.secs, nanos: nanos_sum })
            }
        }
    }
}

impl View for Duration {
    type V = nat;

    closed spec fn view(&self) -> nat {
        self.total_nanos()
    }
}

/// Where a playlist item lives: a file on disk (by its canonical path) or a URL.
#[derive(Clone, Debug, PartialEq, Eq, Hash)]
pub enum ItemPath {
    File(String),
    Url(String),
}

impl View for ItemPath {
    /// Whether the path is a URL, and its text.
    type V = (bool, Seq<char>);

    open spec fn view(&self) -> (bool, Seq<char>) {
        match self {
            ItemPath::File(p) => (false, p@),
            ItemPath::Url(u) => (true, u@),
        }
    }
}

/// The characters after the last `/` of `path` (all of it when it has none).
pub open spec fn last_segment(path: Seq<char>) -> Seq<char>
    decreases path.len(),
{
    if path.len() == 0 || path.last() == '/' {
        Seq::empty()
    } else {
        last_segment(path.drop_last()).push(path.last())
    }
}

/// The file name of a path, as std documents `Path::file_name` on Unix: the last
/// component, where repeated and trailing separators are ignored and `.` components
/// are skipped; none when the path is empty, the root, `.`, or ends in `..`.
pub open spec fn path_file_name(path: Seq<char>) -> Option<Seq<char>>
    decreases path.len(),
{
    if path.len() == 0 {
        None
    } else if path.last() == '/' || last_segment(path) == "."@ {
        path_file_name(path.drop_last())
    } else if last_segment(path) == ".."@ {
        None
    } else {
        Some(last_segment(path))
    }
}

/// Calls `std::path::Path::file_name` on `path`. The contract states what std
/// documents of it and of how a path splits into components (see `path_file_name`).
#[verifier::external_body]
pub(crate) fn std_file_name(path: &str) -> (r: Option<String>)
    ensures
        r matches Some(s) ==> path_file_name(path@) == Some(s@),
        r is None ==> path_file_name(path@) is None,
{
    std::path::Path::new(path).file_name().map(|s| s.to_string_lossy().into_owned())
}

/// The index of the last `.` in `name`, if there is one.
pub open spec fn last_dot(name: Seq<char>) -> Option<int>
    decreases name.len(),
{
    if name.len() == 0 {
        None
    } else if name.last() == '.' {
        Some(name.len() - 1)
    } else {
        last_dot(name.drop_last())
    }
}

/// The stem of a file name: the whole name when it has no `.` or its only `.` is
/// its first character, else the part before the last `.`.
pub open spec fn name_stem(name: Seq<char>) -> Seq<char> {
    match last_dot(name) {
        Some(i) => if i > 0 { name.subrange(0, i) } else { name },
        None => name,
    }
}

/// The extension of a file name: none when it has no `.` or its only `.` is its
/// first character, else the part after the last `.`.
pub open spec fn name_extension(name: Seq<char>) -> Option<Seq<char>> {
    match last_dot(name) {
        Some(i) => if i > 0 { Some(name.subrange(i + 1, name.len() as int)) } else { None },
        None => None,
    }
}

/// The stem that `std::path::Path::file_stem` gives for a path: that of its file
/// name, if it has one.
pub open spec fn path_file_stem(path: Seq<char>) -> Option<Seq<char>> {
    match path_file_name(path) {
        Some(n) => Some(name_stem(n)),
        None => None,
    }
}

/// The extension that `std::path::Path::extension` gives for a path: that of its
/// file name, if it has one.
pub open spec fn path_extension(path: Seq<char>) -> Option<Seq<char>> {
    match path_file_name(path) {
        Some(n) => name_extension(n),
        None => None,
    }
}

/// Calls `std::path::Path::file_stem` on `path`. The contract states what std
/// documents: no stem without a file name; else the file name without the part from
/// its last `.` on, unless that `.` starts the name.
#[verifier::external_body]
pub(crate) fn std_file_stem(path: &str) -> (r: Option<String>)
    ensures
        r matches Some(s) ==> path_file_stem(path@) == Some(s@),
        r is None ==> path_file_stem(path@) is None,
{
    std::path::Path::new(path).file_stem().map(|s| s.to_string_lossy().into_owned())
}

impl ItemPath {
    /// The text of the path: the file path or the URL.
    pub open spec fn text(self) -> Seq<char> {
        self@.1
    }

    /// The text of the path as an owned string.
    pub fn to_string_lossy(&self) -> (r: String)
        ensures
            r@ == self@.1,
    {
        match self {
            ItemPath::File(p) => p.clone(),
            ItemPath::Url(u) => u.clone(),
        }
    }

    /// The text of the path as a string slice.
    pub fn as_str(&self) -> (r: &str)
        ensures
            r@ == self@.1,
    {
        match self {
            ItemPath::File(p) => p.as_str(),
            ItemPath::Url(u) => u.as_str(),
        }
    }

    /// Whether this path is a URL.
    pub fn is_url(&self) -> (r: bool)
        ensures
            r == self@.0,
    {
        match self {
            ItemPath::File(_) => false,
            ItemPath::Url(_) => true,
        }
    }

    /// The file path, when this is a file.
    pub fn as_file(&self) -> (r: Option<&String>)
        ensures
            r is Some <==> !self@.0,
            r matches Some(p) ==> p@ == self@.1,
    {
        match self {
            ItemPath::File(p) => Some(p),
            ItemPath::Url(_) => None,
        }
    }

    /// The URL, when this is a URL.
    pub fn as_url(&self) -> (r: Option<&String>)
        ensures
            r is Some <==> self@.0,
            r matches Some(u) ==> u@ == self@.1,
    {
        match self {
            ItemPath::File(_) => None,
            ItemPath::Url(u) => Some(u),
        }
    }

    /// The file stem of the path text.
    pub fn file_stem(&self) -> (r: Option<String>)
        ensures
            r matches Some(s) ==> path_file_stem(self@.1) == Some(s@),
            r is None ==> path_file_stem(self@.1) is None,
    {
        std_file_stem(self.as_str())
    }

    /// Whether two paths are the same (same kind and same text).
    pub fn same_as(&self, other: &ItemPath) -> (r: bool)
        ensures
            r == (self@ == other@),
    {
        match self {
            ItemPath::File(a) => match other {
                ItemPath::File(b) => *a == *b,
                ItemPath::Url(_) => false,
            },
            ItemPath::Url(a) => match other {
                ItemPath::File(_) => false,
                ItemPath::Url(b) => *a == *b,
            },
        }
    }

    /// An identical copy.
    pub fn duplicate(&self) -> (r: ItemPath)
        ensures
            r == *self,
    {
        match self {
            ItemPath::File(p) => ItemPath::File(p.clone()),
            ItemPath::Url(u) => ItemPath::Url(u.clone()),
        }
    }
}

/// A media entry shown in the playlist or the library pane.
#[derive(Clone, Debug, PartialEq)]
pub struct PlaylistItem {
    pub path: ItemPath,
    pub duration: Option<Duration>,
    pub alias: Option<String>,
    pub mime_type: Option<String>,
    pub is_virtual: bool,
    pub playlist_count: usize,
    pub has_sources: bool,
}

/// An identical copy of an optional string.
pub fn dup_opt_string(s: &Option<String>) -> (r: Option<String>)
    ensures
        r == *s,
{
    match s {
        Some(v) => Some(v.clone()),
        None => None,
    }
}

impl PlaylistItem {
    /// An identical copy of the item.
    pub fn duplicate(&self) -> (r: PlaylistItem)
        ensures
            r == *self,
    {
        PlaylistItem {
            path: self.path.duplicate(),
            duration: self.duration,
            alias: dup_opt_string(&self.alias),
            mime_type: dup_opt_string(&self.mime_type),
            is_virtual: self.is_virtual,
            playlist_count: self.playlist_count,
            has_sources: self.has_sources,
        }
    }
}

/// An identical copy of a list of items.
pub fn duplicate_items(items: &Vec<PlaylistItem>) -> (r: Vec<PlaylistItem>)
    ensures
        r@ == items@,
{
    let mut r: Vec<PlaylistItem> = Vec::new();
    let mut i: usize = 0;
    while i < items.len()
        invariant
            i <= items@.len(),
            r@ == items@.subrange(0, i as int),
        decreases items@.len() - i,
    {
        r.push(items[i].duplicate());
        i = i + 1;
        assert(r@ =~= items@.subrange(0, i as int));
    }
    assert(items@.subrange(0, items@.len() as int) =~= items@);
    r
}

/// Which text is shown first for each item.
#[derive(Clone, Copy, Debug, PartialEq, Eq)]
pub enum ItemDisplayMode {
    /// The file path or file name.
    Path,
    /// The alias when there is one, else the file name.
    Alias,
}

impl ItemDisplayMode {
    /// The default display mode, showing aliases.
    pub fn default_mode() -> (m: ItemDisplayMode)
        ensures
            m == ItemDisplayMode::Alias,
    {
        ItemDisplayMode::Alias
    }
}

/// Which of the two side-by-side panes has the focus.
#[derive(Clone, Copy, Debug, PartialEq, Eq)]
pub enum Pane {
    /// The playlist being edited.
    Playlist,
    /// The files available to add.
    Library,
}

/// Strict lexicographic order on character sequences, by code point; a proper
/// prefix comes first. This is the order of `str` comparison.
pub open spec fn chars_lt(a: Seq<char>, b: Seq<char>) -> bool
    decreases a.len(),
{
    if a.len() == 0 {
        b.len() > 0
    } else if b.len() == 0 {
        false
    } else if a[0] != b[0] {
        (a[0] as u32) < (b[0] as u32)
    } else {
        chars_lt(a.drop_first(), b.drop_first())
    }
}

proof fn lemma_chars_lt_skip(a: Seq<char>, b: Seq<char>, i: int)
    requires
        0 <= i < a.len(),
        i < b.len(),
        a[i] == b[i],
    ensures
        chars_lt(a.skip(i), b.skip(i)) == chars_lt(a.skip(i + 1), b.skip(i + 1)),
{
    assert(a.skip(i).drop_first() =~= a.skip(i + 1));
    assert(b.skip(i).drop_first() =~= b.skip(i + 1));
}

/// Compares two character vectors in the order of [`chars_lt`].
pub fn chars_less(a: &Vec<char>, b: &Vec<char>) -> (r: bool)
    ensures
        r == chars_lt(a@, b@),
{
    let mut i: usize = 0;
    assert(a@.skip(0) =~= a@);
    assert(b@.skip(0) =~= b@);
    while i < a.len() && i < b.len()
        invariant
            i <= a@.len(),
            i <= b@.len(),
            chars_lt(a@, b@) == chars_lt(a@.skip(i as int), b@.skip(i as int)),
        decreases a@.len() - i,
    {
        if a[i] != b[i] {
            let ca = a[i];
            let cb = b[i];
            return (ca as u32) < (cb as u32);
        }
        proof {
            lemma_chars_lt_skip(a@, b@, i as int);
        }
        i = i + 1;
    }
    if i == a.len() {
        i < b.len()
    } else {
        false
    }
}

/// Position at which `x` goes into the path-sorted list `sorted` so that it follows
/// every item whose path is not greater than its own.
pub open spec fn path_insert_pos(sorted: Seq<PlaylistItem>, x: PlaylistItem) -> nat
    decreases sorted.len(),
{
    if sorted.len() == 0 {
        0
    } else if chars_lt(x.path@.1, sorted[0].path@.1) {
        0
    } else {
        1 + path_insert_pos(sorted.drop_first(), x)
    }
}

/// The items stably sorted by the text of their paths (insertion of each item, in
/// order, after the items with a path not greater than its own).
pub open spec fn sorted_by_path(s: Seq<PlaylistItem>) -> Seq<PlaylistItem>
    decreases s.len(),
{
    if s.len() == 0 {
        s
    } else {
        let p = sorted_by_path(s.drop_last());
        p.insert(path_insert_pos(p, s.last()) as int, s.last())
    }
}

proof fn lemma_path_insert_pos_bound(sorted: Seq<PlaylistItem>, x: PlaylistItem)
    ensures
        path_insert_pos(sorted, x) <= sorted.len(),
    decreases sorted.len(),
{
    if sorted.len() > 0 {
        lemma_path_insert_pos_bound(sorted.drop_first(), x);
    }
}

proof fn lemma_path_insert_pos_is(sorted: Seq<PlaylistItem>, x: PlaylistItem, j: int)
    requires
        0 <= j <= sorted.len(),
        forall|k: int| 0 <= k < j ==> !chars_lt(x.path@.1, #[trigger] sorted[k].path@.1),
        j < sorted.len() ==> chars_lt(x.path@.1, sorted[j].path@.1),
    ensures
        path_insert_pos(sorted, x) == j,
    decreases sorted.len(),
{
    if sorted.len() > 0 && j > 0 {
        assert(!chars_lt(x.path@.1, sorted[0].path@.1));
        let rest = sorted.drop_first();
        assert forall|k: int| 0 <= k < j - 1 implies !chars_lt(x.path@.1, #[trigger] rest[k].path@.1) by {
            assert(rest[k] == sorted[k + 1]);
        }
        if j - 1 < rest.len() {
            assert(rest[j - 1] == sorted[j]);
        }
        lemma_path_insert_pos_is(rest, x, j - 1);
    }
}

proof fn lemma_sorted_by_path_len(s: Seq<PlaylistItem>)
    ensures
        sorted_by_path(s).len() == s.len(),
    decreases s.len(),
{
    if s.len() > 0 {
        lemma_sorted_by_path_len(s.drop_last());
        lemma_path_insert_pos_bound(sorted_by_path(s.drop_last()), s.last());
    }
}

/// The characters of an item's path text.
fn path_key(item: &PlaylistItem) -> (k: Vec<char>)
    ensures
        k@ == item.path@.1,
{
    chars_of(item.path.as_str())
}

/// Sorts the items stably by the text of their paths.
pub fn sort_by_path(items: &mut Vec<PlaylistItem>)
    ensures
        final(items)@ == sorted_by_path(old(items)@),
{
    let ghost orig = old(items)@;
    let mut src: Vec<PlaylistItem> = Vec::new();
    std::mem::swap(&mut src, items);
    let mut out: Vec<PlaylistItem> = Vec::new();
    let mut keys: Vec<Vec<char>> = Vec::new();
    let ghost mut consumed: int = 0;
    assert(orig.take(0) =~= Seq::<PlaylistItem>::empty());
    assert(src@.skip(0) =~= src@);
    while src.len() > 0
        invariant
            0 <= consumed <= orig.len(),
            src@ == orig.skip(consumed),
            out@ == sorted_by_path(orig.take(consumed)),
            keys@.len() == out@.len(),
            forall|k: int| 0 <= k < keys@.len() ==> #[trigger] keys@[k]@ == out@[k].path@.1,
        decreases src@.len(),
    {
        let x = src.remove(0);
        let kx = path_key(&x);
        let mut j: usize = 0;
        while j < out.len() && !chars_less(&kx, &keys[j])
            invariant
                j <= out@.len(),
                keys@.len() == out@.len(),
                forall|k: int| 0 <= k < keys@.len() ==> #[trigger] keys@[k]@ == out@[k].path@.1,
                kx@ == x.path@.1,
                forall|k: int| 0 <= k < j ==> !chars_lt(x.path@.1, #[trigger] out@[k].path@.1),
            decreases out@.len() - j,
        {
            j = j + 1;
        }
        proof {
            lemma_path_insert_pos_is(out@, x, j as int);
            assert(orig.take(consumed + 1).drop_last() =~= orig.take(consumed));
            assert(orig.take(consumed + 1).last() == x);
        }
        out.insert(j, x);
        keys.insert(j, kx);
        proof {
            consumed = consumed + 1;
            assert(src@ =~= orig.skip(consumed));
            assert forall|k: int| 0 <= k < keys@.len() implies #[trigger] keys@[k]@ == out@[k].path@.1 by {
                if k < j {
                } else if k == j {
                } else {
                }
            }
        }
    }
    assert(orig.take(consumed) =~= orig);
    *items = out;
}

} // verus!
