use media_manager_core::subtitles::SubtitleManager;

#[test]
fn test_extract_imdb_id() {
    assert_eq!(
        SubtitleManager::extract_imdb_id("Movie.Title.tt1234567.mkv"),
        Some("tt1234567".to_string())
    );
    assert_eq!(
        SubtitleManager::extract_imdb_id("tt9999999_movie.mp4"),
        Some("tt9999999".to_string())
    );
    assert_eq!(SubtitleManager::extract_imdb_id("movie_without_id.mp4"), None);
}

#[test]
fn test_get_opensubtitles_url() {
    let path1 = String::from("Movie.Title.tt1234567.mkv");
    assert_eq!(
        SubtitleManager::get_opensubtitles_url(&path1),
        "https://www.opensubtitles.org/en/search/sublanguageid-all/imdbid-tt1234567"
    );

    let path2 = String::from("movie_without_id.mp4");
    assert_eq!(
        SubtitleManager::get_opensubtitles_url(&path2),
        "https://www.opensubtitles.org/en/search/sublanguageid-all/moviename-movie_without_id"
    );
}

#[test]
fn imdb_id_needs_seven_digits_right_after_the_marker() {
    assert_eq!(SubtitleManager::extract_imdb_id("tt123456"), None);
    assert_eq!(SubtitleManager::extract_imdb_id("tt123456a"), None);
    assert_eq!(SubtitleManager::extract_imdb_id("tt12345678"), Some("tt1234567".to_string()));
    assert_eq!(SubtitleManager::extract_imdb_id("ttt1234567"), None);
    assert_eq!(SubtitleManager::extract_imdb_id(""), None);
    assert_eq!(SubtitleManager::extract_imdb_id("t"), None);
}

#[test]
fn imdb_id_reads_only_up_to_the_next_marker() {
    assert_eq!(SubtitleManager::extract_imdb_id("tt12345tt1234567"), None);
    assert_eq!(SubtitleManager::extract_imdb_id("a.tt7654321tt.mkv"), Some("tt7654321".to_string()));
    assert_eq!(SubtitleManager::extract_imdb_id("butter.tt1234567.mkv"), None);
}

#[test]
fn imdb_id_is_none_where_a_wide_character_follows_six_digits() {
    assert_eq!(SubtitleManager::extract_imdb_id("tt123456\u{e9}"), None);
}

#[test]
fn search_url_encodes_spaces_of_the_stem() {
    assert_eq!(
        SubtitleManager::get_opensubtitles_url("/films/My Great Movie.mkv"),
        "https://www.opensubtitles.org/en/search/sublanguageid-all/moviename-My%20Great%20Movie"
    );
    assert_eq!(
        SubtitleManager::search_url_for("a b.mkv", None),
        "https://www.opensubtitles.org/en/search/sublanguageid-all/moviename-a%20b.mkv"
    );
    assert_eq!(
        SubtitleManager::search_url_for("x.tt0000001.mkv", Some("ignored")),
        "https://www.opensubtitles.org/en/search/sublanguageid-all/imdbid-tt0000001"
    );
}

#[test]
fn search_url_of_a_path_without_file_name() {
    assert_eq!(
        SubtitleManager::get_opensubtitles_url(".."),
        "https://www.opensubtitles.org/en/search/sublanguageid-all/moviename-"
    );
}

#[test]
fn manager_reports_no_embedded_subtitles() {
    let manager = SubtitleManager::new().unwrap();
    assert_eq!(manager.get_embedded_subtitles("/films/a.mkv").unwrap().len(), 0);
}

#[test]
fn search_url_reads_the_file_name_only() {
    assert_eq!(
        SubtitleManager::get_opensubtitles_url("/films/tt1234567/movie.mkv"),
        "https://www.opensubtitles.org/en/search/sublanguageid-all/moviename-movie"
    );
    assert_eq!(
        SubtitleManager::get_opensubtitles_url("/films/x/Film.tt7654321.mkv"),
        "https://www.opensubtitles.org/en/search/sublanguageid-all/imdbid-tt7654321"
    );
}
