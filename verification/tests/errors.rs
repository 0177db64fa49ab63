use media_manager_core::error::MediaManagerError;
use media_manager_core::scanner::MediaScanner;
use media_manager_core::subtitles::SubtitleError;
use media_manager_core::text::replace;

#[test]
fn each_error_has_its_message() {
    assert_eq!(MediaManagerError::Io("disk".to_string()).message(), "I/O error: disk");
    assert_eq!(MediaManagerError::Json("eof".to_string()).message(), "JSON parsing error: eof");
    assert_eq!(
        MediaManagerError::FfprobeError("bad".to_string()).message(),
        "ffprobe command failed: bad"
    );
    assert_eq!(
        MediaManagerError::FfprobeNotFound.message(),
        "ffprobe not found. Please ensure it's installed and in your PATH."
    );
    assert_eq!(
        MediaManagerError::FileNotFound("/a/b".to_string()).message(),
        "File not found: /a/b"
    );
    assert_eq!(
        MediaManagerError::InvalidTemplate("x".to_string()).message(),
        "Invalid template: x"
    );
    assert_eq!(
        MediaManagerError::RenameFailed("a".to_string(), "b".to_string(), "c".to_string()).message(),
        "Rename failed for 'a' to 'b': c"
    );
    assert_eq!(MediaManagerError::NoStagedRenames.message(), "No staged renames to commit.");
    assert_eq!(MediaManagerError::NoUndoData.message(), "No previous rename batch to undo.");
    assert_eq!(MediaManagerError::Cancelled.message(), "Operation cancelled.");
    assert_eq!(MediaManagerError::Unknown("why".to_string()).message(), "Unknown error: why");
    assert_eq!(
        MediaManagerError::Subtitle(SubtitleError::NoSubtitlesFound).message(),
        "Subtitle error: No subtitles found"
    );
    assert_eq!(
        MediaManagerError::Subtitle(SubtitleError::IoError("disk".to_string())).message(),
        "Subtitle error: IO error: disk"
    );
}

#[test]
fn replace_is_leftmost_and_non_overlapping() {
    assert_eq!(replace("aaa", "aa", "b"), "ba");
    assert_eq!(replace("abcabc", "bc", ""), "aa");
    assert_eq!(replace("abc", "abcd", "x"), "abc");
    assert_eq!(replace("", "a", "x"), "");
    assert_eq!(replace("a.b.c", ".", ".."), "a..b..c");
    assert_eq!(replace("h\u{e9}llo h\u{e9}", "h\u{e9}", "y"), "yllo y");
    assert_eq!(replace("xab", "ab", "ab"), "xab");
}

#[test]
fn scanner_takes_video_extensions_in_any_case() {
    let scanner = MediaScanner::new();
    for ext in ["mp4", "mkv", "avi", "mov", "webm", "MP4", "Mkv", "WEBM"] {
        assert!(scanner.accepts(ext));
    }
    for ext in ["txt", "", "mp3", "mp4 ", "jpeg"] {
        assert!(!scanner.accepts(ext));
    }
    assert!(scanner.lists("mkv"));
    assert!(!scanner.lists("MKV"));
}
