//! Staged batch renaming of media files: template-driven names, a staging
//! batch, an ordered commit and a single-level undo, all as plain values.

pub mod config;
pub mod error;
pub mod media_file;
pub mod metadata;
pub mod paths;
pub mod renamer;
pub mod run;
pub mod scanner;
pub mod subtitles;
pub mod template;
pub mod text;
pub mod undo;

pub use config::Config;
pub use error::MediaManagerError;
pub use media_file::{MediaFile, MediaFileType};
pub use metadata::MediaMetadata;
pub use renamer::{MediaRenamer, StagedRename};
pub use run::{RenameOutcome, RenameRun};
pub use scanner::MediaScanner;
pub use subtitles::{SubtitleError, SubtitleManager, SubtitleMetadata};
pub use undo::{UndoData, UndoManager};
