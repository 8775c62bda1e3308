use shownotes::domain::{Duration, ItemPath};
use shownotes::playlist_data::{
    assemble_playlist_data, resolve_alias, AliasRow, FileMetadata, StoredFile, StoredRecord,
};

fn alias(file: &str, workspace: &str, text: &str, updated_at: i64) -> AliasRow {
    AliasRow {
        file_path: file.to_string(),
        workspace: workspace.to_string(),
        alias: text.to_string(),
        updated_at,
    }
}

fn stored(path: &str, file_id: i64, record: Option<StoredRecord>) -> StoredFile {
    StoredFile { path: ItemPath::File(path.to_string()), file_id, is_virtual: false, record }
}

fn record(secs: u64, mime: &str) -> StoredRecord {
    StoredRecord {
        duration: Some(Duration::from_secs(secs)),
        deleted: false,
        mime_type: Some(mime.to_string()),
        time_added: Some(1_700_000_000),
    }
}

fn entry<'a>(files: &'a [(ItemPath, FileMetadata)], path: &ItemPath) -> &'a FileMetadata {
    let found: Vec<&(ItemPath, FileMetadata)> = files.iter().filter(|(p, _)| p == path).collect();
    assert_eq!(found.len(), 1);
    &found[0].1
}

#[test]
fn mod_file_metadata_can_be_cloned() {
    let metadata = FileMetadata {
        duration: Some(Duration::from_secs(120)),
        is_virtual: false,
        deleted: false,
        mime_type: None,
        time_added: None,
        alias: Some("My Video".to_string()),
    };
    let cloned = metadata.clone();
    assert_eq!(cloned.duration, metadata.duration);
    assert_eq!(cloned.time_added, metadata.time_added);
    assert_eq!(cloned.alias, metadata.alias);
}

#[test]
fn alias_of_the_workspace_wins() {
    let rows = vec![
        alias("/shared/file.mp3", "/workspace1", "alias_ws1", 1),
        alias("/shared/file.mp3", "/workspace2", "alias_ws2", 1),
    ];
    assert_eq!(resolve_alias(&rows, "/shared/file.mp3", "/workspace1"), Some("alias_ws1".to_string()));
    assert_eq!(resolve_alias(&rows, "/shared/file.mp3", "/workspace2"), Some("alias_ws2".to_string()));
}

#[test]
fn alias_falls_back_to_the_most_recent() {
    let rows = vec![
        alias("/shared/file.mp3", "/workspace1", "older_alias", 100),
        alias("/shared/file.mp3", "/other_workspace", "newer_alias", 200),
    ];
    assert_eq!(resolve_alias(&rows, "/shared/file.mp3", "/unknown"), Some("newer_alias".to_string()));
}

#[test]
fn workspace_alias_is_not_overridden_by_a_newer_one_elsewhere() {
    let rows = vec![
        alias("/f.mp4", "/other", "newest", 900),
        alias("/f.mp4", "/ws", "mine", 10),
        alias("/g.mp4", "/ws", "not this file", 999),
    ];
    assert_eq!(resolve_alias(&rows, "/f.mp4", "/ws"), Some("mine".to_string()));
}

#[test]
fn equally_recent_aliases_resolve_to_the_first() {
    let rows = vec![
        alias("/f.mp4", "/a", "first", 50),
        alias("/f.mp4", "/b", "second", 50),
        alias("/f.mp4", "/c", "older", 10),
    ];
    assert_eq!(resolve_alias(&rows, "/f.mp4", "/ws"), Some("first".to_string()));
}

#[test]
fn unknown_file_has_no_alias() {
    let rows = vec![alias("/other.mp4", "/ws", "x", 1)];
    assert_eq!(resolve_alias(&rows, "/test/video.mp4", "/ws"), None);
    assert_eq!(resolve_alias(&[], "/test/video.mp4", "/ws"), None);
}

#[test]
fn assembled_playlist_keeps_row_order() {
    let files = vec![stored("/m/c.mp4", 3, None), stored("/m/a.mp4", 1, None), stored("/m/b.mp4", 2, None)];
    let data = assemble_playlist_data("/m".to_string(), files, vec![], &[]);
    assert_eq!(data.working_directory, "/m");
    assert_eq!(
        data.playlist,
        vec![
            ItemPath::File("/m/c.mp4".to_string()),
            ItemPath::File("/m/a.mp4".to_string()),
            ItemPath::File("/m/b.mp4".to_string()),
        ]
    );
    assert_eq!(data.files.len(), 3);
}

#[test]
fn assembled_files_carry_their_alias_and_record() {
    let aliases = vec![alias("/workspace/file.mp3", "/workspace", "My File", 5)];
    let data = assemble_playlist_data(
        "/workspace".to_string(),
        vec![stored("/workspace/file.mp3", 1, Some(record(120, "audio/mpeg")))],
        vec![],
        &aliases,
    );
    let meta = entry(&data.files, &ItemPath::File("/workspace/file.mp3".to_string()));
    assert_eq!(meta.alias, Some("My File".to_string()));
    assert_eq!(meta.duration, Some(Duration::from_secs(120)));
    assert_eq!(meta.mime_type, Some("audio/mpeg".to_string()));
    assert_eq!(meta.time_added, Some(1_700_000_000));
    assert!(!meta.deleted);
}

#[test]
fn assembled_file_without_a_record_has_empty_fields() {
    let url = StoredFile {
        path: ItemPath::Url("https://example.com/v".to_string()),
        file_id: 9,
        is_virtual: true,
        record: None,
    };
    let data = assemble_playlist_data("/ws".to_string(), vec![url], vec![], &[]);
    let meta = entry(&data.files, &ItemPath::Url("https://example.com/v".to_string()));
    assert!(meta.is_virtual);
    assert_eq!(meta.duration, None);
    assert_eq!(meta.mime_type, None);
    assert_eq!(meta.time_added, None);
    assert_eq!(meta.alias, None);
    assert!(!meta.deleted);
}

#[test]
fn library_rows_of_playlist_files_are_skipped() {
    let playlist = vec![stored("/m/a.mp4", 1, Some(record(10, "video/mp4")))];
    let library = vec![stored("/m/a.mp4", 1, Some(record(99, "video/other"))), stored("/m/b.mp4", 2, None)];
    let data = assemble_playlist_data("/m".to_string(), playlist, library, &[]);
    assert_eq!(data.playlist, vec![ItemPath::File("/m/a.mp4".to_string())]);
    assert_eq!(data.files.len(), 2);
    let a = entry(&data.files, &ItemPath::File("/m/a.mp4".to_string()));
    assert_eq!(a.duration, Some(Duration::from_secs(10)));
    let b = entry(&data.files, &ItemPath::File("/m/b.mp4".to_string()));
    assert_eq!(b.duration, None);
}

#[test]
fn a_later_row_for_a_path_replaces_an_earlier_one() {
    let library = vec![stored("/m/b.mp4", 2, Some(record(1, "x"))), stored("/m/b.mp4", 3, Some(record(2, "y")))];
    let data = assemble_playlist_data("/m".to_string(), vec![], library, &[]);
    assert_eq!(data.files.len(), 1);
    assert_eq!(data.files[0].1.mime_type, Some("y".to_string()));
}

#[test]
fn empty_workspace_assembles_empty_data() {
    let data = assemble_playlist_data("/ws".to_string(), vec![], vec![], &[]);
    assert!(data.playlist.is_empty());
    assert!(data.files.is_empty());
    assert_eq!(data.working_directory, "/ws");
}
