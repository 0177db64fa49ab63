//! Subtitle helpers: an identifier embedded in a file name, and a search link.

use vstd::prelude::*;
use vstd::string::*;
use crate::paths::{file_name, file_name_of, file_stem, file_stem_of};
use crate::text::{
    chars_of, decimal_digit, find_from, first_occurrence, is_decimal_digit, replace, replace_all,
    string_of, text_or_empty,
};

verus! {

/// Why a subtitle lookup failed.
#[derive(Debug)]
pub enum SubtitleError {
    /// A filesystem or operating-system failure, with its description.
    IoError(String),
    /// The file carries no subtitles.
    NoSubtitlesFound,
}

impl SubtitleError {
    /// The text of the message that `message` returns.
    pub open spec fn message_text(&self) -> Seq<char> {
        match self {
            SubtitleError::IoError(e) => "IO error: "@ + e@,
            SubtitleError::NoSubtitlesFound => "No subtitles found"@,
        }
    }

    /// The message that describes this error to a person.
    pub fn message(&self) -> (r: String)
        ensures
            r@ == self.message_text(),
    {
        match self {
            SubtitleError::IoError(e) => String::from_str("IO error: ").concat(e.as_str()),
            SubtitleError::NoSubtitlesFound => String::from_str("No subtitles found"),
        }
    }
}

/// Language and codec of one subtitle track.
#[derive(Debug)]
pub struct SubtitleMetadata {
    pub language: String,
    pub codec: String,
}

/// Works with the subtitle streams embedded in a video file.
#[derive(Debug)]
pub struct SubtitleManager;

/// The marker that introduces an identifier in a file name.
pub open spec fn id_marker() -> Seq<char> {
    seq!['t', 't']
}

/// The text between the first marker of `name` and the next one, or the end
/// of `name` where no second marker follows. `at` is where the first marker is.
pub open spec fn after_marker(name: Seq<char>, at: int) -> Seq<char> {
    match first_occurrence(name, id_marker(), at + 2) {
        Some(next) => name.subrange(at + 2, next),
        None => name.subrange(at + 2, name.len() as int),
    }
}

/// Whether `s` begins with seven decimal digits.
pub open spec fn starts_with_seven_digits(s: Seq<char>) -> bool {
    s.len() >= 7 && forall|k: int| 0 <= k < 7 ==> is_decimal_digit(#[trigger] s[k])
}

/// The identifier embedded in `name`: the marker and the seven digits that
/// follow its first occurrence directly, if seven digits do follow it.
pub open spec fn imdb_id(name: Seq<char>) -> Option<Seq<char>> {
    match first_occurrence(name, id_marker(), 0) {
        None => None,
        Some(at) => {
            let after = after_marker(name, at);
            if starts_with_seven_digits(after) {
                Some(id_marker() + after.subrange(0, 7))
            } else {
                None
            }
        },
    }
}

/// The search link for a file called `name` whose stem is `stem`: by
/// identifier where `name` embeds one, else by the stem (or the whole name
/// where there is no stem) with each space written `%20`.
pub open spec fn search_url(name: Seq<char>, stem: Option<Seq<char>>) -> Seq<char> {
    match imdb_id(name) {
        Some(id) => "https://www.opensubtitles.org/en/search/sublanguageid-all/imdbid-"@ + id,
        None => {
            let movie = match stem {
                Some(s) => s,
                None => name,
            };
            "https://www.opensubtitles.org/en/search/sublanguageid-all/moviename-"@
                + replace_all(movie, " "@, "%20"@)
        },
    }
}

impl SubtitleManager {
    /// A manager; this cannot fail.
    pub fn new() -> (r: Result<Self, SubtitleError>)
        ensures
            r is Ok,
    {
        Ok(SubtitleManager {  })
    }

    /// The subtitle tracks embedded in the file at `_video_path`. Tracks are
    /// found when a file is probed for metadata, so this reports none.
    pub fn get_embedded_subtitles(&self, _video_path: &str) -> (r: Result<
        Vec<SubtitleMetadata>,
        SubtitleError,
    >)
        ensures
            r is Ok,
            r->Ok_0@.len() == 0,
    {
        Ok(Vec::new())
    }

    /// Extracts the identifier embedded in a file name, as in
    /// `Movie.Title.tt1234567.mkv`.
    pub fn extract_imdb_id(filename: &str) -> (r: Option<String>)
        ensures
            r is Some <==> imdb_id(filename@) is Some,
            r matches Some(id) ==> Some(id@) == imdb_id(filename@),
    {
        let s = chars_of(filename);
        let mut tt: Vec<char> = Vec::new();
        tt.push('t');
        tt.push('t');
        assert(tt@ == id_marker());
        match find_from(&s, &tt, 0) {
            None => None,
            Some(at) => {
                let start = at + 2;
                let end = match find_from(&s, &tt, start) {
                    Some(next) => next,
                    None => s.len(),
                };
                let ghost after = after_marker(s@, at as int);
                assert(after == s@.subrange(start as int, end as int));
                if end - start < 7 {
                    return None;
                }
                let mut id: Vec<char> = Vec::new();
                id.push('t');
                id.push('t');
                let mut k: usize = 0;
                while k < 7
                    invariant
                        k <= 7,
                        start + 7 <= end <= s.len(),
                        s@ == filename@,
                        first_occurrence(s@, id_marker(), 0) == Some(at as int),
                        after == after_marker(s@, at as int),
                        after == s@.subrange(start as int, end as int),
                        id@ == id_marker() + after.subrange(0, k as int),
                        forall|j: int| 0 <= j < k ==> is_decimal_digit(#[trigger] after[j]),
                    decreases 7 - k,
                {
                    let c = s[start + k];
                    assert(c == after[k as int]);
                    if !decimal_digit(c) {
                        assert(!is_decimal_digit(after[k as int]));
                        assert(!starts_with_seven_digits(after));
                        return None;
                    }
                    id.push(c);
                    assert(after.subrange(0, k + 1) == after.subrange(0, k as int).push(c));
                    k += 1;
                }
                Some(string_of(&id))
            },
        }
    }

    /// The search link for a file called `filename` whose stem is `stem`.
    pub fn search_url_for(filename: &str, stem: Option<&str>) -> (r: String)
        ensures
            r@ == search_url(
                filename@,
                match stem {
                    Some(s) => Some(s@),
                    None => None,
                },
            ),
    {
        match Self::extract_imdb_id(filename) {
            Some(id) => String::from_str(
                "https://www.opensubtitles.org/en/search/sublanguageid-all/imdbid-",
            ).concat(id.as_str()),
            None => {
                let movie = match stem {
                    Some(s) => s,
                    None => filename,
                };
                proof {
                    reveal_strlit(" ");
                }
                let encoded = replace(movie, " ", "%20");
                String::from_str(
                    "https://www.opensubtitles.org/en/search/sublanguageid-all/moviename-",
                ).concat(encoded.as_str())
            },
        }
    }

    /// The search link for the video file at `video_path`: `search_url` of
    /// the path's file name, empty where it has none, and of its stem.
    pub fn get_opensubtitles_url(video_path: &str) -> (r: String)
        ensures
            r@ == search_url(text_or_empty(file_name(video_path@)), file_stem(video_path@)),
    {
        let name = match file_name_of(video_path) {
            Some(n) => n,
            None => String::new(),
        };
        let stem = file_stem_of(video_path);
        match stem {
            Some(s) => {
                Self::search_url_for(name.as_str(), Some(s.as_str()))
            },
            None => {
                Self::search_url_for(name.as_str(), None)
            },
        }
    }
}

} // verus!
