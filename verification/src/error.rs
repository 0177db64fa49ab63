//! The errors that the library reports, each with its message.

use vstd::prelude::*;
use vstd::string::*;
use crate::subtitles::SubtitleError;

verus! {

/// Why an operation of the library failed.
#[derive(Debug)]
pub enum MediaManagerError {
    /// A filesystem or operating-system failure, with its description.
    Io(String),
    /// Stored data could not be read as JSON, with the parser's description.
    Json(String),
    /// The metadata probe ran and failed, with what it printed.
    FfprobeError(String),
    /// The metadata probe is not installed.
    FfprobeNotFound,
    /// The named file does not exist.
    FileNotFound(String),
    /// A rendered name holds a reserved character; carries the explanation.
    InvalidTemplate(String),
    /// Renaming the first path to the second failed for the given cause.
    RenameFailed(String, String, String),
    /// A commit was asked for while nothing was staged.
    NoStagedRenames,
    /// An undo was asked for while no committed batch was recorded.
    NoUndoData,
    /// The operation was cancelled.
    Cancelled,
    /// Any other failure, with its description.
    Unknown(String),
    /// A failure of the subtitle lookup.
    Subtitle(SubtitleError),
}

impl MediaManagerError {
    /// The text of the message that `message` returns.
    pub open spec fn message_text(&self) -> Seq<char> {
        match self {
            MediaManagerError::Io(e) => "I/O error: "@ + e@,
            MediaManagerError::Json(e) => "JSON parsing error: "@ + e@,
            MediaManagerError::FfprobeError(e) => "ffprobe command failed: "@ + e@,
            MediaManagerError::FfprobeNotFound => {
                "ffprobe not found. Please ensure it's installed and in your PATH."@
            },
            MediaManagerError::FileNotFound(p) => "File not found: "@ + p@,
            MediaManagerError::InvalidTemplate(m) => "Invalid template: "@ + m@,
            MediaManagerError::RenameFailed(from, to, cause) => {
                "Rename failed for '"@ + from@ + "' to '"@ + to@ + "': "@ + cause@
            },
            MediaManagerError::NoStagedRenames => "No staged renames to commit."@,
            MediaManagerError::NoUndoData => "No previous rename batch to undo."@,
            MediaManagerError::Cancelled => "Operation cancelled."@,
            MediaManagerError::Unknown(m) => "Unknown error: "@ + m@,
            MediaManagerError::Subtitle(e) => "Subtitle error: "@ + e.message_text(),
        }
    }

    /// The message that describes this error to a person.
    pub fn message(&self) -> (r: String)
        ensures
            r@ == self.message_text(),
    {
        match self {
            MediaManagerError::Io(e) => String::from_str("I/O error: ").concat(e.as_str()),
            MediaManagerError::Json(e) => String::from_str("JSON parsing error: ").concat(
                e.as_str(),
            ),
            MediaManagerError::FfprobeError(e) => String::from_str(
                "ffprobe command failed: ",
            ).concat(e.as_str()),
            MediaManagerError::FfprobeNotFound => String::from_str(
                "ffprobe not found. Please ensure it's installed and in your PATH.",
            ),
            MediaManagerError::FileNotFound(p) => String::from_str("File not found: ").concat(
                p.as_str(),
            ),
            MediaManagerError::InvalidTemplate(m) => String::from_str("Invalid template: ").concat(
                m.as_str(),
            ),
            MediaManagerError::RenameFailed(from, to, cause) => String::from_str(
                "Rename failed for '",
            ).concat(from.as_str()).concat("' to '").concat(to.as_str()).concat("': ").concat(
                cause.as_str(),
            ),
            MediaManagerError::NoStagedRenames => String::from_str("No staged renames to commit."),
            MediaManagerError::NoUndoData => String::from_str("No previous rename batch to undo."),
            MediaManagerError::Cancelled => String::from_str("Operation cancelled."),
            MediaManagerError::Unknown(m) => String::from_str("Unknown error: ").concat(m.as_str()),
            MediaManagerError::Subtitle(e) => {
                let inner = e.message();
                String::from_str("Subtitle error: ").concat(inner.as_str())
            },
        }
    }
}

} // verus!
