//! A media file as the renamer sees it.

use vstd::prelude::*;
use vstd::string::*;
use crate::metadata::MediaMetadata;
use crate::paths::{extension, extension_of, file_stem, file_stem_of};
use crate::text::text_or_empty;

verus! {

/// The kind of a media file.
#[derive(Debug, Clone, Copy, PartialEq, Eq)]
pub enum MediaFileType {
    Video,
    Audio,
}

/// A media file: its path, the stem and extension of its name, and its
/// metadata where a probe gave any.
#[derive(Debug, Clone)]
pub struct MediaFile {
    pub path: String,
    /// The file name without its extension, such as `my_movie`.
    pub filename: String,
    /// The extension without its dot, such as `mp4`.
    pub extension: String,
    pub file_type: MediaFileType,
    pub metadata: Option<MediaMetadata>,
}

impl MediaFile {
    /// The record of the video file at `path` whose name splits into
    /// `filename` and `extension`, without metadata.
    pub fn from_parts(path: String, filename: String, extension: String) -> (r: Self)
        ensures
            r.path == path,
            r.filename == filename,
            r.extension == extension,
            r.file_type == MediaFileType::Video,
            r.metadata is None,
    {
        MediaFile { path, filename, extension, file_type: MediaFileType::Video, metadata: None }
    }

    /// The record of the file at `path`, without metadata. Stem and extension
    /// are those of `path`, each empty where `path` has none.
    pub fn new(path: String) -> (r: Self)
        ensures
            r.path == path,
            r.filename@ == text_or_empty(file_stem(path@)),
            r.extension@ == text_or_empty(extension(path@)),
            r.file_type == MediaFileType::Video,
            r.metadata is None,
    {
        let filename = match file_stem_of(path.as_str()) {
            Some(s) => s,
            None => String::new(),
        };
        let extension = match extension_of(path.as_str()) {
            Some(e) => e,
            None => String::new(),
        };
        Self::from_parts(path, filename, extension)
    }

    /// The text of the full file name: stem, a dot, extension.
    pub open spec fn full_name(&self) -> Seq<char> {
        self.filename@ + "."@ + self.extension@
    }

    /// The full file name, extension included.
    pub fn full_filename(&self) -> (r: String)
        ensures
            r@ == self.full_name(),
    {
        self.filename.clone().concat(".").concat(self.extension.as_str())
    }
}

} // verus!
