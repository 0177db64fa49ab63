//! Which files a scan of a directory takes for media files.

use vstd::prelude::*;
use vstd::string::*;
use crate::text::chars_equal;

verus! {

/// The lower-case form of a text, as `str::to_lowercase` gives it.
pub uninterp spec fn lowercase(s: Seq<char>) -> Seq<char>;

/// `str::to_lowercase`: the lower-case form of `s`, which depends on the
/// characters of `s` alone.
#[verifier::external_body]
fn to_lowercase(s: &str) -> (r: String)
    ensures
        r@ == lowercase(s@),
{
    s.to_lowercase()
}

/// The extensions of the video containers that a scan looks for.
pub open spec fn video_extensions() -> Seq<Seq<char>> {
    seq!["mp4"@, "mkv"@, "avi"@, "mov"@, "webm"@]
}

/// Picks the media files among the files of a directory, by extension.
pub struct MediaScanner {
    allowed_extensions: Vec<String>,
}

impl MediaScanner {
    /// The extensions that this scanner takes, in lower case.
    pub closed spec fn allowed(&self) -> Seq<Seq<char>> {
        Seq::new(self.allowed_extensions@.len(), |i: int| self.allowed_extensions@[i]@)
    }

    /// A scanner for the video-container extensions.
    pub fn new() -> (r: Self)
        ensures
            r.allowed() == video_extensions(),
    {
        let mut allowed_extensions: Vec<String> = Vec::new();
        allowed_extensions.push(String::from_str("mp4"));
        allowed_extensions.push(String::from_str("mkv"));
        allowed_extensions.push(String::from_str("avi"));
        allowed_extensions.push(String::from_str("mov"));
        allowed_extensions.push(String::from_str("webm"));
        let r = MediaScanner { allowed_extensions };
        assert(r.allowed() =~= video_extensions());
        r
    }

    /// Whether `lowered`, an extension in lower case, is one that this
    /// scanner takes.
    pub fn lists(&self, lowered: &str) -> (r: bool)
        ensures
            r == self.allowed().contains(lowered@),
    {
        let mut i: usize = 0;
        while i < self.allowed_extensions.len()
            invariant
                i <= self.allowed_extensions.len(),
                forall|j: int| 0 <= j < i ==> self.allowed()[j] != lowered@,
            decreases self.allowed_extensions.len() - i,
        {
            let candidate = self.allowed_extensions[i].as_str();
            if chars_equal(candidate, lowered) {
                assert(self.allowed()[i as int] == lowered@);
                return true;
            }
            i += 1;
        }
        false
    }

    /// Whether a file with the extension `extension` is taken for a media
    /// file: whether its lower-case form is one of the scanner's extensions.
    pub fn accepts(&self, extension: &str) -> (r: bool)
        ensures
            r == self.allowed().contains(lowercase(extension@)),
    {
        let lowered = to_lowercase(extension);
        self.lists(lowered.as_str())
    }
}

} // verus!
