//! The playlist data that storage loads for a workspace: which alias each file shows,
//! and how the stored rows of the playlist and the library become one record per
//! path.
//!
//! Aliases resolve by priority: the alias set in the current workspace; else the most
//! recently updated alias from any workspace; else none, and the file name is shown.
use vstd::prelude::*;
use crate::common::opt_view;
use crate::domain::{Duration, ItemPath};
use crate::storage::item_path_to_path;
use crate::text::owned;

verus! {

/// An alias as storage holds it: the file it names, the workspace it was set in, the
/// alias itself, and when it was last updated.
#[derive(Clone, Debug, PartialEq)]
pub struct AliasRow {
    pub file_path: String,
    pub workspace: String,
    pub alias: String,
    pub updated_at: i64,
}

/// Whether `r` is an alias of `file`.
pub open spec fn names_file(r: AliasRow, file: Seq<char>) -> bool {
    r.file_path@ == file
}

/// Whether `r` is an alias of `file` set in workspace `ws`.
pub open spec fn names_file_in(r: AliasRow, file: Seq<char>, ws: Seq<char>) -> bool {
    r.file_path@ == file && r.workspace@ == ws
}

/// Whether some row is an alias of `file` set in workspace `ws`.
pub open spec fn has_workspace_alias(rows: Seq<AliasRow>, file: Seq<char>, ws: Seq<char>) -> bool {
    exists|j: int| 0 <= j < rows.len() && names_file_in(#[trigger] rows[j], file, ws)
}

/// Row `i` is the one whose alias `file` shows in workspace `ws`: the first alias set
/// in that workspace; where there is none, the first of the most recently updated
/// aliases of the file.
pub open spec fn chosen_alias_row(rows: Seq<AliasRow>, file: Seq<char>, ws: Seq<char>, i: int) -> bool {
    &&& 0 <= i < rows.len()
    &&& names_file(rows[i], file)
    &&& if has_workspace_alias(rows, file, ws) {
            &&& rows[i].workspace@ == ws
            &&& forall|j: int| 0 <= j < i ==> !names_file_in(#[trigger] rows[j], file, ws)
        } else {
            forall|j: int|
                0 <= j < rows.len() && names_file(#[trigger] rows[j], file)
                    ==> rows[j].updated_at <= rows[i].updated_at
                        && (j < i ==> rows[j].updated_at < rows[i].updated_at)
        }
}

/// The alias `file` shows in workspace `ws`, if it has any.
pub open spec fn resolved_alias(rows: Seq<AliasRow>, file: Seq<char>, ws: Seq<char>) -> Option<Seq<char>> {
    if exists|i: int| chosen_alias_row(rows, file, ws, i) {
        Some(rows[choose|i: int| chosen_alias_row(rows, file, ws, i)].alias@)
    } else {
        None
    }
}

/// At most one row is chosen.
pub proof fn lemma_chosen_alias_row_unique(rows: Seq<AliasRow>, file: Seq<char>, ws: Seq<char>, i: int, k: int)
    requires
        chosen_alias_row(rows, file, ws, i),
        chosen_alias_row(rows, file, ws, k),
    ensures
        i == k,
{
    if has_workspace_alias(rows, file, ws) {
        if i < k {
            assert(!names_file_in(rows[i], file, ws));
        } else if k < i {
            assert(!names_file_in(rows[k], file, ws));
        }
    } else {
        if i < k {
            assert(names_file(rows[i], file));
        } else if k < i {
            assert(names_file(rows[k], file));
        }
    }
}

/// Where `p` holds below `n`, there is a first index where it holds.
proof fn lemma_first_where(p: spec_fn(int) -> bool, n: int)
    requires
        exists|j: int| 0 <= j < n && #[trigger] p(j),
    ensures
        exists|i: int| 0 <= i < n && #[trigger] p(i) && forall|j: int| 0 <= j < i ==> !#[trigger] p(j),
    decreases n,
{
    if exists|j: int| 0 <= j < n - 1 && #[trigger] p(j) {
        lemma_first_where(p, n - 1);
        let i = choose|i: int| 0 <= i < n - 1 && #[trigger] p(i) && forall|j: int| 0 <= j < i ==> !#[trigger] p(j);
        assert(0 <= i < n && p(i));
    } else {
        assert(p(n - 1));
        assert forall|j: int| 0 <= j < n - 1 implies !#[trigger] p(j) by {}
    }
}

/// Whether row `i` is an alias of `file` updated no earlier than any alias of `file`
/// among the first `n` rows.
pub open spec fn latest_among(rows: Seq<AliasRow>, file: Seq<char>, n: int, i: int) -> bool {
    &&& 0 <= i < n
    &&& names_file(rows[i], file)
    &&& forall|j: int| 0 <= j < n && names_file(#[trigger] rows[j], file) ==> rows[j].updated_at <= rows[i].updated_at
}

/// Among the aliases of `file` in the first `n` rows, one was updated last.
proof fn lemma_latest_alias(rows: Seq<AliasRow>, file: Seq<char>, n: int)
    requires
        0 <= n <= rows.len(),
        exists|j: int| 0 <= j < n && names_file(#[trigger] rows[j], file),
    ensures
        exists|i: int| latest_among(rows, file, n, i),
    decreases n,
{
    if exists|j: int| 0 <= j < n - 1 && names_file(#[trigger] rows[j], file) {
        let prev = n - 1;
        lemma_latest_alias(rows, file, prev);
        let i = choose|i: int| latest_among(rows, file, prev, i);
        if names_file(rows[n - 1], file) && rows[n - 1].updated_at > rows[i].updated_at {
            assert(latest_among(rows, file, n, n - 1));
        } else {
            assert(latest_among(rows, file, n, i));
        }
    } else {
        assert(latest_among(rows, file, n, n - 1));
    }
}

/// A file with at least one alias has a chosen row.
pub proof fn lemma_chosen_alias_row_exists(rows: Seq<AliasRow>, file: Seq<char>, ws: Seq<char>)
    requires
        exists|j: int| 0 <= j < rows.len() && names_file(#[trigger] rows[j], file),
    ensures
        exists|i: int| chosen_alias_row(rows, file, ws, i),
{
    if has_workspace_alias(rows, file, ws) {
        let p = |j: int| names_file_in(rows[j], file, ws);
        let w = choose|j: int| 0 <= j < rows.len() && names_file_in(#[trigger] rows[j], file, ws);
        assert(p(w));
        lemma_first_where(p, rows.len() as int);
        let i = choose|i: int| 0 <= i < rows.len() && #[trigger] p(i) && forall|j: int| 0 <= j < i ==> !#[trigger] p(j);
        assert forall|j: int| 0 <= j < i implies !names_file_in(#[trigger] rows[j], file, ws) by {
            assert(!p(j));
        }
        assert(chosen_alias_row(rows, file, ws, i));
    } else {
        let n = rows.len() as int;
        lemma_latest_alias(rows, file, n);
        let m = choose|m: int| latest_among(rows, file, n, m);
        let top = rows[m].updated_at;
        let p = |j: int| names_file(rows[j], file) && rows[j].updated_at == top;
        assert(p(m));
        lemma_first_where(p, rows.len() as int);
        let i = choose|i: int| 0 <= i < rows.len() && #[trigger] p(i) && forall|j: int| 0 <= j < i ==> !#[trigger] p(j);
        assert forall|j: int|
            0 <= j < rows.len() && names_file(#[trigger] rows[j], file)
                implies rows[j].updated_at <= rows[i].updated_at
                    && (j < i ==> rows[j].updated_at < rows[i].updated_at) by {
            if j < i {
                assert(!p(j));
            }
        }
        assert(chosen_alias_row(rows, file, ws, i));
    }
}

/// The alias of `file_path` to show in `workspace`: the alias set in that workspace;
/// else the most recently updated alias from any workspace (the first of them in row
/// order when several were updated at the same time); else none.
pub fn resolve_alias(rows: &[AliasRow], file_path: &str, workspace: &str) -> (r: Option<String>)
    ensures
        opt_view(r) == resolved_alias(rows@, file_path@, workspace@),
{
    let file = owned(file_path);
    let ws = owned(workspace);
    let ghost f = file_path@;
    let ghost w = workspace@;
    let mut i: usize = 0;
    while i < rows.len()
        invariant
            i <= rows@.len(),
            f == file_path@ && w == workspace@,
            file@ == f,
            ws@ == w,
            forall|j: int| 0 <= j < i ==> !names_file_in(#[trigger] rows@[j], f, w),
        decreases rows@.len() - i,
    {
        if rows[i].file_path == file && rows[i].workspace == ws {
            proof {
                assert(names_file_in(rows@[i as int], f, w));
                assert(has_workspace_alias(rows@, f, w));
                assert(chosen_alias_row(rows@, f, w, i as int));
                let c = choose|c: int| chosen_alias_row(rows@, f, w, c);
                lemma_chosen_alias_row_unique(rows@, f, w, i as int, c);
            }
            let a = rows[i].alias.clone();
            return Some(a);
        }
        i = i + 1;
    }
    assert(!has_workspace_alias(rows@, f, w));
    let mut best: Option<usize> = None;
    let mut k: usize = 0;
    while k < rows.len()
        invariant
            k <= rows@.len(),
            f == file_path@ && w == workspace@,
            file@ == f,
            !has_workspace_alias(rows@, f, w),
            match best {
                Some(b) => b < k && names_file(rows@[b as int], f) && forall|j: int|
                    0 <= j < k && names_file(#[trigger] rows@[j], f) ==> rows@[j].updated_at <= rows@[b as int].updated_at
                        && (j < b ==> rows@[j].updated_at < rows@[b as int].updated_at),
                None => forall|j: int| 0 <= j < k ==> !names_file(#[trigger] rows@[j], f),
            },
        decreases rows@.len() - k,
    {
        if rows[k].file_path == file {
            match best {
                None => {
                    best = Some(k);
                },
                Some(b) => {
                    if rows[k].updated_at > rows[b].updated_at {
                        best = Some(k);
                    }
                },
            }
        }
        k = k + 1;
    }
    match best {
        Some(b) => {
            proof {
                assert(chosen_alias_row(rows@, f, w, b as int));
                let c = choose|c: int| chosen_alias_row(rows@, f, w, c);
                lemma_chosen_alias_row_unique(rows@, f, w, b as int, c);
            }
            Some(rows[b].alias.clone())
        },
        None => {
            assert(!exists|c: int| chosen_alias_row(rows@, f, w, c));
            None
        },
    }
}

/// What storage holds about a file besides its alias.
#[derive(Clone, Debug, PartialEq)]
pub struct StoredRecord {
    pub duration: Option<Duration>,
    pub deleted: bool,
    pub mime_type: Option<String>,
    pub time_added: Option<i64>,
}

/// A file as storage returns it for a workspace: its path, its id in storage, whether
/// it is a URL entry, and its stored record, if it has one.
#[derive(Clone, Debug, PartialEq)]
pub struct StoredFile {
    pub path: ItemPath,
    pub file_id: i64,
    pub is_virtual: bool,
    pub record: Option<StoredRecord>,
}

/// The metadata of a file of the playlist or the library.
#[derive(Clone, Debug, PartialEq)]
pub struct FileMetadata {
    pub duration: Option<Duration>,
    pub is_virtual: bool,
    pub deleted: bool,
    pub mime_type: Option<String>,
    pub time_added: Option<i64>,
    pub alias: Option<String>,
}

/// The playlist data of a workspace: its directory, the playlist in order, and the
/// metadata of every file of the playlist and the library, one entry per path.
#[derive(Clone, Debug, PartialEq)]
pub struct PlaylistData {
    pub working_directory: String,
    pub playlist: Vec<ItemPath>,
    pub files: Vec<(ItemPath, FileMetadata)>,
}

/// `m` is the metadata of stored file `f` with alias `alias`: the stored record with
/// the file's URL flag, or empty fields where nothing is stored.
pub open spec fn described(m: FileMetadata, f: StoredFile, alias: Option<Seq<char>>) -> bool {
    &&& m.is_virtual == f.is_virtual
    &&& opt_view(m.alias) == alias
    &&& match f.record {
            Some(rec) => m.duration == rec.duration && m.deleted == rec.deleted && m.mime_type == rec.mime_type
                && m.time_added == rec.time_added,
            None => m.duration is None && !m.deleted && m.mime_type is None && m.time_added is None,
        }
}

/// The storage ids of `rows`, in order.
pub open spec fn file_ids(rows: Seq<StoredFile>) -> Seq<i64> {
    rows.map_values(|f: StoredFile| f.file_id)
}

/// The rows whose id is not among `ids`, in order.
pub open spec fn rows_not_in(rows: Seq<StoredFile>, ids: Seq<i64>) -> Seq<StoredFile>
    decreases rows.len(),
{
    if rows.len() == 0 {
        Seq::empty()
    } else {
        let prev = rows_not_in(rows.drop_last(), ids);
        if ids.contains(rows.last().file_id) {
            prev
        } else {
            prev.push(rows.last())
        }
    }
}

/// The stored files a load describes, in the order it reads them: the playlist's, then
/// the library's that are not in the playlist.
pub open spec fn loaded_files(playlist_rows: Seq<StoredFile>, library_rows: Seq<StoredFile>) -> Seq<StoredFile> {
    playlist_rows + rows_not_in(library_rows, file_ids(playlist_rows))
}

/// The last of `files` with path `p`, if any.
pub open spec fn last_with_path(files: Seq<StoredFile>, p: (bool, Seq<char>)) -> Option<StoredFile>
    decreases files.len(),
{
    if files.len() == 0 {
        None
    } else if files.last().path@ == p {
        Some(files.last())
    } else {
        last_with_path(files.drop_last(), p)
    }
}

/// `files` holds one entry per path; each describes the last of `sources` with its
/// path, with the alias that file resolves to in workspace `ws`; and every path of
/// `sources` has an entry.
pub open spec fn describes_files(
    files: Seq<(ItemPath, FileMetadata)>,
    sources: Seq<StoredFile>,
    aliases: Seq<AliasRow>,
    ws: Seq<char>,
) -> bool {
    &&& forall|a: int, b: int| 0 <= a < b < files.len() ==> (#[trigger] files[a]).0@ != (#[trigger] files[b]).0@
    &&& forall|k: int| 0 <= k < files.len() ==> match last_with_path(sources, (#[trigger] files[k]).0@) {
            Some(f) => described(files[k].1, f, resolved_alias(aliases, f.path@.1, ws)),
            None => false,
        }
    &&& forall|p: (bool, Seq<char>)| #[trigger] last_with_path(sources, p) is Some
            ==> exists|k: int| 0 <= k < files.len() && (#[trigger] files[k]).0@ == p
}

/// The metadata of a stored file with the given alias.
fn metadata_for(f: StoredFile, alias: Option<String>) -> (m: FileMetadata)
    ensures
        described(m, f, opt_view(alias)),
{
    match f.record {
        Some(rec) => FileMetadata {
            duration: rec.duration,
            is_virtual: f.is_virtual,
            deleted: rec.deleted,
            mime_type: rec.mime_type,
            time_added: rec.time_added,
            alias,
        },
        None => FileMetadata {
            duration: None,
            is_virtual: f.is_virtual,
            deleted: false,
            mime_type: None,
            time_added: None,
            alias,
        },
    }
}

/// Puts the entry for `path` in `files`: in place of the entry with the same path,
/// else at the end. Returns where it went.
fn put_entry(files: &mut Vec<(ItemPath, FileMetadata)>, path: ItemPath, meta: FileMetadata) -> (k: usize)
    ensures
        k <= old(files)@.len(),
        k < old(files)@.len() ==> old(files)@[k as int].0@ == path@
            && final(files)@ == old(files)@.update(k as int, (path, meta)),
        k == old(files)@.len() ==> (forall|j: int| 0 <= j < old(files)@.len() ==> (#[trigger] old(files)@[j]).0@ != path@)
            && final(files)@ == old(files)@.push((path, meta)),
{
    let mut j: usize = 0;
    while j < files.len()
        invariant
            j <= files@.len(),
            files@ == old(files)@,
            forall|i: int| 0 <= i < j ==> (#[trigger] files@[i]).0@ != path@,
        decreases files@.len() - j,
    {
        if files[j].0.same_as(&path) {
            files.set(j, (path, meta));
            return j;
        }
        j = j + 1;
    }
    let n = files.len();
    files.push((path, meta));
    n
}

/// Records stored file `f` in `files`, which describes `done`, so that it describes
/// `done` followed by `f`.
fn record_file(
    files: &mut Vec<(ItemPath, FileMetadata)>,
    f: StoredFile,
    aliases: &[AliasRow],
    ws: &String,
    Ghost(done): Ghost<Seq<StoredFile>>,
)
    requires
        describes_files(old(files)@, done, aliases@, ws@),
    ensures
        describes_files(final(files)@, done.push(f), aliases@, ws@),
{
    let ghost gf = f;
    let ghost old_files = files@;
    let text = item_path_to_path(&f.path);
    let alias = resolve_alias(aliases, text.as_str(), ws.as_str());
    let path = f.path.duplicate();
    let meta = metadata_for(f, alias);
    let k = put_entry(files, path, meta);
    proof {
        let nd = done.push(gf);
        assert(nd.drop_last() =~= done);
        assert forall|p: (bool, Seq<char>)| #[trigger] last_with_path(nd, p) == if gf.path@ == p {
            Some(gf)
        } else {
            last_with_path(done, p)
        } by {}
        let fl = files@;
        assert forall|a: int, b: int| 0 <= a < b < fl.len() implies (#[trigger] fl[a]).0@ != (#[trigger] fl[b]).0@ by {
            if k < old_files.len() {
                assert(old_files[a].0@ != old_files[b].0@);
            } else if b < old_files.len() {
                assert(old_files[a].0@ != old_files[b].0@);
            } else {
                assert(fl[a] == old_files[a]);
            }
        }
        assert forall|i: int| 0 <= i < fl.len() implies match last_with_path(nd, (#[trigger] fl[i]).0@) {
            Some(g) => described(fl[i].1, g, resolved_alias(aliases@, g.path@.1, ws@)),
            None => false,
        } by {
            if i == k {
                assert(fl[i] == (path, meta));
            } else {
                assert(fl[i] == old_files[i]);
                if k < old_files.len() {
                    assert(old_files[i].0@ != old_files[k as int].0@);
                } else {
                    assert(old_files[i].0@ != path@);
                }
            }
        }
        assert forall|p: (bool, Seq<char>)| #[trigger] last_with_path(nd, p) is Some
            implies exists|i: int| 0 <= i < fl.len() && (#[trigger] fl[i]).0@ == p by {
            if gf.path@ == p {
                assert(fl[k as int].0@ == p);
            } else {
                let i = choose|i: int| 0 <= i < old_files.len() && (#[trigger] old_files[i]).0@ == p;
                if i == k {
                    assert(old_files[i].0@ == path@);
                } else {
                    assert(fl[i] == old_files[i]);
                }
            }
        }
    }
}

/// Whether `id` is one of `ids`.
fn id_listed(ids: &Vec<i64>, id: i64) -> (r: bool)
    ensures
        r == ids@.contains(id),
{
    let mut i: usize = 0;
    while i < ids.len()
        invariant
            i <= ids@.len(),
            forall|j: int| 0 <= j < i ==> #[trigger] ids@[j] != id,
        decreases ids@.len() - i,
    {
        if ids[i] == id {
            assert(ids@[i as int] == id);
            return true;
        }
        i = i + 1;
    }
    false
}

/// Builds the playlist data of a workspace from what storage holds: the playlist in
/// row order; then the metadata of each playlist file, and of each library file that
/// is not in the playlist, one entry per path (a later row for a path replacing an
/// earlier one), each with the alias it resolves to in the workspace.
pub fn assemble_playlist_data(
    working_directory: String,
    playlist_rows: Vec<StoredFile>,
    library_rows: Vec<StoredFile>,
    aliases: &[AliasRow],
) -> (d: PlaylistData)
    ensures
        d.working_directory == working_directory,
        d.playlist@ == playlist_rows@.map_values(|f: StoredFile| f.path),
        describes_files(d.files@, loaded_files(playlist_rows@, library_rows@), aliases@, working_directory@),
{
    let ghost pl = playlist_rows@;
    let ghost lib = library_rows@;
    let mut playlist: Vec<ItemPath> = Vec::new();
    let mut ids: Vec<i64> = Vec::new();
    let mut i: usize = 0;
    while i < playlist_rows.len()
        invariant
            i <= pl.len(),
            playlist_rows@ == pl,
            playlist@ == pl.take(i as int).map_values(|f: StoredFile| f.path),
            ids@ == file_ids(pl.take(i as int)),
        decreases pl.len() - i,
    {
        playlist.push(playlist_rows[i].path.duplicate());
        ids.push(playlist_rows[i].file_id);
        proof {
            assert(pl.take(i + 1) =~= pl.take(i as int).push(pl[i as int]));
        }
        i = i + 1;
        assert(playlist@ =~= pl.take(i as int).map_values(|f: StoredFile| f.path));
        assert(ids@ =~= file_ids(pl.take(i as int)));
    }
    assert(pl.take(pl.len() as int) =~= pl);
    let mut files: Vec<(ItemPath, FileMetadata)> = Vec::new();
    let ghost mut done: Seq<StoredFile> = Seq::empty();
    let ghost mut n: int = 0;
    let mut rows = playlist_rows;
    assert(pl.skip(0) =~= pl);
    assert(pl.take(0) =~= Seq::<StoredFile>::empty());
    while rows.len() > 0
        invariant
            0 <= n <= pl.len(),
            rows@ == pl.skip(n),
            done == pl.take(n),
            describes_files(files@, done, aliases@, working_directory@),
        decreases rows@.len(),
    {
        let ghost before = rows@;
        let f = rows.remove(0);
        proof {
            assert(rows@ =~= before.drop_first());
            assert(f == pl[n]);
        }
        record_file(&mut files, f, aliases, &working_directory, Ghost(done));
        proof {
            done = done.push(f);
            assert(done =~= pl.take(n + 1));
            assert(pl.skip(n + 1) =~= pl.skip(n).drop_first());
            n = n + 1;
        }
    }
    assert(done =~= pl);
    let ghost mut m: int = 0;
    let mut rows = library_rows;
    assert(lib.skip(0) =~= lib);
    assert(rows_not_in(lib.take(0), ids@) =~= Seq::<StoredFile>::empty());
    assert(done =~= pl + rows_not_in(lib.take(0), ids@));
    while rows.len() > 0
        invariant
            0 <= m <= lib.len(),
            rows@ == lib.skip(m),
            ids@ == file_ids(pl),
            done == pl + rows_not_in(lib.take(m), ids@),
            describes_files(files@, done, aliases@, working_directory@),
        decreases rows@.len(),
    {
        let ghost before = rows@;
        let f = rows.remove(0);
        proof {
            assert(rows@ =~= before.drop_first());
            assert(f == lib[m]);
            assert(lib.take(m + 1).drop_last() =~= lib.take(m));
            assert(lib.take(m + 1).last() == f);
        }
        if !id_listed(&ids, f.file_id) {
            let ghost gf = f;
            record_file(&mut files, f, aliases, &working_directory, Ghost(done));
            proof {
                done = done.push(gf);
                assert(done =~= pl + rows_not_in(lib.take(m + 1), ids@));
            }
        } else {
            assert(done =~= pl + rows_not_in(lib.take(m + 1), ids@));
        }
        proof {
            assert(lib.skip(m + 1) =~= lib.skip(m).drop_first());
            m = m + 1;
        }
    }
    assert(lib.take(lib.len() as int) =~= lib);
    PlaylistData { working_directory, playlist, files }
}

} // verus!
