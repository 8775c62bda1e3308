use shownotes::domain::ItemPath;
use shownotes::storage::{item_path_to_path, pathbuf_to_item_path};
use shownotes::symlink::{free_link_name, link_name, name_listed, suffixed_name, SymlinkError};

#[test]
fn stored_web_urls_read_back_as_urls() {
    assert_eq!(pathbuf_to_item_path("https://example.com/a".to_string()), ItemPath::Url("https://example.com/a".to_string()));
    assert_eq!(pathbuf_to_item_path("http://example.com/a".to_string()), ItemPath::Url("http://example.com/a".to_string()));
}

#[test]
fn other_stored_text_reads_back_as_a_file() {
    assert_eq!(pathbuf_to_item_path("/media/http.mp4".to_string()), ItemPath::File("/media/http.mp4".to_string()));
    assert_eq!(pathbuf_to_item_path("ftp://example.com".to_string()), ItemPath::File("ftp://example.com".to_string()));
}

#[test]
fn item_paths_are_stored_as_their_text() {
    assert_eq!(item_path_to_path(&ItemPath::File("/media/a.mp4".to_string())), "/media/a.mp4");
    assert_eq!(item_path_to_path(&ItemPath::Url("https://x.example".to_string())), "https://x.example");
}

fn names(list: &[&str]) -> Vec<String> {
    list.iter().map(|s| s.to_string()).collect()
}

#[test]
fn creates_symlink_with_original_name() {
    assert_eq!(free_link_name("/tmp/src/video.mp4", &[]), Ok("video.mp4".to_string()));
}

#[test]
fn appends_suffix_when_file_exists() {
    assert_eq!(free_link_name("/tmp/src/video.mp4", &names(&["video.mp4"])), Ok("video_1.mp4".to_string()));
}

#[test]
fn appends_incrementing_suffix() {
    let taken = names(&["video.mp4", "video_1.mp4"]);
    assert_eq!(free_link_name("/tmp/src/video.mp4", &taken), Ok("video_2.mp4".to_string()));
}

#[test]
fn handles_files_without_extension() {
    assert_eq!(free_link_name("/tmp/src/README", &names(&["README"])), Ok("README_1".to_string()));
}

#[test]
fn fails_when_target_has_no_filename() {
    assert_eq!(free_link_name("/", &[]), Err(SymlinkError));
}

#[test]
fn creates_symlink_when_symlink_exists_at_destination() {
    assert_eq!(free_link_name("/tmp/src/video.mp4", &names(&["video.mp4"])), Ok("video_1.mp4".to_string()));
}

#[test]
fn free_name_skips_only_the_taken_numbers() {
    let taken = names(&["video.mp4", "video_1.mp4", "video_3.mp4", "other.mp4"]);
    assert_eq!(free_link_name("/tmp/src/video.mp4", &taken), Ok("video_2.mp4".to_string()));
}

#[test]
fn free_name_ignores_unrelated_entries() {
    let taken = names(&["video_1.mp4", "clip.mp4"]);
    assert_eq!(free_link_name("/tmp/src/video.mp4", &taken), Ok("video.mp4".to_string()));
}

#[test]
fn link_names_by_attempt() {
    assert_eq!(link_name("/tmp/src/video.mp4", 0), Ok("video.mp4".to_string()));
    assert_eq!(link_name("/tmp/src/video.mp4", 2), Ok("video_2.mp4".to_string()));
    assert_eq!(link_name("/tmp/src/README", 1), Ok("README_1".to_string()));
    assert_eq!(link_name("/", 0), Err(SymlinkError));
    assert_eq!(link_name("/", 1), Err(SymlinkError));
}

#[test]
fn name_listed_finds_exact_names() {
    let taken = names(&["a.mp4", "b.mp4"]);
    assert!(name_listed(&taken, &"b.mp4".to_string()));
    assert!(!name_listed(&taken, &"b.mp".to_string()));
}

#[test]
fn suffixed_name_numbers_the_stem() {
    assert_eq!(suffixed_name("clip", Some("tar.gz"), 12), "clip_12.tar.gz");
    assert_eq!(suffixed_name("clip", None, 7), "clip_7");
}

#[test]
fn numbered_names_split_at_the_last_dot() {
    assert_eq!(link_name("/tmp/src/archive.tar.gz", 1), Ok("archive.tar_1.gz".to_string()));
    assert_eq!(link_name("/tmp/src/.bashrc", 1), Ok(".bashrc_1".to_string()));
    assert_eq!(link_name("/tmp/src/..hidden", 1), Ok("._1.hidden".to_string()));
    assert_eq!(link_name("/tmp/src/trailing.", 1), Ok("trailing_1.".to_string()));
}

#[test]
fn file_name_is_the_last_normal_component() {
    assert_eq!(link_name("/tmp/src/", 0), Ok("src".to_string()));
    assert_eq!(link_name("/tmp/src/./", 0), Ok("src".to_string()));
    assert_eq!(link_name("/tmp//clip.mkv", 0), Ok("clip.mkv".to_string()));
    assert_eq!(link_name("/tmp/src/..", 0), Err(SymlinkError));
    assert_eq!(link_name(".", 0), Err(SymlinkError));
    assert_eq!(link_name("", 0), Err(SymlinkError));
}
