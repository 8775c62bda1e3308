use shownotes::note_search::search_entries;
use shownotes::sources::clean_sources;

#[test]
fn set_sources_filters_empty_urls() {
    let urls = vec!["https://example.com".to_string(), String::new(), "   ".to_string()];
    assert_eq!(clean_sources(&urls), vec!["https://example.com".to_string()]);
}

#[test]
fn clean_sources_trims_and_keeps_order() {
    let urls = vec![
        "  https://example.com/1 ".to_string(),
        "\t\n".to_string(),
        "https://example.com/2\u{3000}".to_string(),
        "\u{a0}https://example.com/3".to_string(),
    ];
    assert_eq!(
        clean_sources(&urls),
        vec![
            "https://example.com/1".to_string(),
            "https://example.com/2".to_string(),
            "https://example.com/3".to_string(),
        ]
    );
}

#[test]
fn clean_sources_keeps_inner_spaces() {
    assert_eq!(clean_sources(&[" a b ".to_string()]), vec!["a b".to_string()]);
    assert_eq!(clean_sources(&[]), Vec::<String>::new());
}

#[test]
fn search_uses_the_note_when_there_is_one() {
    let rows = vec![("/tmp/a/clip.mp4".to_string(), Some("my note content".to_string()))];
    assert_eq!(search_entries(rows), vec![("/tmp/a/clip.mp4".to_string(), "my note content".to_string())]);
}

#[test]
fn search_uses_the_file_name_without_a_note() {
    let rows = vec![
        ("/tmp/a/clip.mp4".to_string(), None),
        ("/tmp/b/other.mkv".to_string(), Some("note for file".to_string())),
        ("/".to_string(), None),
    ];
    assert_eq!(
        search_entries(rows),
        vec![
            ("/tmp/a/clip.mp4".to_string(), "clip.mp4".to_string()),
            ("/tmp/b/other.mkv".to_string(), "note for file".to_string()),
            ("/".to_string(), "/".to_string()),
        ]
    );
}

#[test]
fn search_of_no_paths_is_empty() {
    assert!(search_entries(vec![]).is_empty());
}
