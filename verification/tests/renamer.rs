use media_manager_core::error::MediaManagerError;
use media_manager_core::media_file::{MediaFile, MediaFileType};
use media_manager_core::metadata::MediaMetadata;
use media_manager_core::renamer::{MediaRenamer, StagedRename};
use media_manager_core::run::{RenameOutcome, RenameRun};
use media_manager_core::template::render;
use media_manager_core::undo::{RenameOperation, UndoData, UndoManager};

fn clip(metadata: Option<MediaMetadata>) -> MediaFile {
    let mut file = MediaFile::new("/videos/clip.mp4".to_string());
    file.metadata = metadata;
    file
}

fn full_metadata() -> MediaMetadata {
    MediaMetadata {
        duration_seconds: Some("125".to_string()),
        width: Some(1920),
        height: Some(1080),
        codec_name: Some("h264".to_string()),
        subtitle_streams: Vec::new(),
    }
}

fn intent(from: &str, to: &str) -> StagedRename {
    StagedRename { original_path: from.to_string(), new_path: to.to_string() }
}

fn pairs(batch: &[StagedRename]) -> Vec<(String, String)> {
    batch.iter().map(|r| (r.original_path.clone(), r.new_path.clone())).collect()
}

fn pair(from: &str, to: &str) -> (String, String) {
    (from.to_string(), to.to_string())
}

#[test]
fn media_file_splits_its_path() {
    let file = MediaFile::new("/a/b/movie.final.mkv".to_string());
    assert_eq!(file.path, "/a/b/movie.final.mkv");
    assert_eq!(file.filename, "movie.final");
    assert_eq!(file.extension, "mkv");
    assert_eq!(file.file_type, MediaFileType::Video);
    assert!(file.metadata.is_none());
    assert_eq!(file.full_filename(), "movie.final.mkv");
}

#[test]
fn media_file_without_extension_or_name() {
    let file = MediaFile::new("/a/b/README".to_string());
    assert_eq!(file.filename, "README");
    assert_eq!(file.extension, "");
    assert_eq!(file.full_filename(), "README.");
    let root = MediaFile::new("/".to_string());
    assert_eq!(root.filename, "");
    assert_eq!(root.extension, "");
}

#[test]
fn template_with_resolution() {
    let renamer = MediaRenamer::new("/tmp");
    let file = clip(Some(full_metadata()));
    let name = renamer.apply_template(&file, "{filename} [{resolution}]").unwrap();
    assert_eq!(name, "clip [1920x1080]");
    let preview = renamer.preview_rename(&file, "{filename} [{resolution}]", false).unwrap();
    assert_eq!(preview.original_path, "/videos/clip.mp4");
    assert_eq!(preview.new_path, "/videos/clip [1920x1080].mp4");
    assert!(preview.is_valid);
    assert!(preview.validation_message.is_none());
}

#[test]
fn template_without_metadata_keeps_placeholder() {
    let renamer = MediaRenamer::new("/tmp");
    let file = clip(None);
    let name = renamer.apply_template(&file, "{filename} [{resolution}]").unwrap();
    assert_eq!(name, "clip [{resolution}]");
    let preview = renamer.preview_rename(&file, "{filename} [{resolution}]", false).unwrap();
    assert_eq!(preview.new_path, "/videos/clip [{resolution}].mp4");
    assert!(preview.is_valid);
}

#[test]
fn template_fills_every_placeholder() {
    let renamer = MediaRenamer::new("/tmp");
    let file = clip(Some(full_metadata()));
    let name = renamer
        .apply_template(&file, "{filename}-{extension}-{resolution}-{duration_s}-{codec}-{filename}")
        .unwrap();
    assert_eq!(name, "clip-mp4-1920x1080-125-h264-clip");
}

#[test]
fn template_leaves_placeholders_without_data() {
    let renamer = MediaRenamer::new("/tmp");
    let mut metadata = full_metadata();
    metadata.height = None;
    metadata.duration_seconds = None;
    metadata.codec_name = None;
    let file = clip(Some(metadata));
    let name = renamer.apply_template(&file, "{resolution} {duration_s} {codec} {other}").unwrap();
    assert_eq!(name, "{resolution} {duration_s} {codec} {other}");
}

#[test]
fn template_writes_numbers_in_decimal() {
    let renamer = MediaRenamer::new("/tmp");
    let mut metadata = full_metadata();
    metadata.width = Some(0);
    metadata.height = Some(4294967295);
    let file = clip(Some(metadata));
    assert_eq!(renamer.apply_template(&file, "{resolution}").unwrap(), "0x4294967295");
}

#[test]
fn template_render_is_repeatable() {
    let renamer = MediaRenamer::new("/tmp");
    let file = clip(Some(full_metadata()));
    let first = renamer.apply_template(&file, "{filename} ({codec})").unwrap();
    let second = renamer.apply_template(&file, "{filename} ({codec})").unwrap();
    assert_eq!(first, "clip (h264)");
    assert_eq!(first, second);
}

#[test]
fn template_with_reserved_character_is_refused() {
    let renamer = MediaRenamer::new("/tmp");
    let file = clip(None);
    for c in ['<', '>', ':', '"', '/', '\\', '|', '?', '*'] {
        let template = format!("{{filename}}{}x", c);
        match renamer.apply_template(&file, &template) {
            Err(MediaManagerError::InvalidTemplate(m)) => {
                assert_eq!(m, format!("Generated filename contains invalid characters: clip{}x", c));
            }
            _ => panic!("a reserved character was accepted"),
        }
    }
}

#[test]
fn reserved_character_from_the_record_is_refused() {
    let renamer = MediaRenamer::new("/tmp");
    let mut metadata = full_metadata();
    metadata.codec_name = Some("a/b".to_string());
    let file = clip(Some(metadata));
    assert!(matches!(
        renamer.apply_template(&file, "{codec}"),
        Err(MediaManagerError::InvalidTemplate(_))
    ));
    assert!(renamer.apply_template(&file, "{filename}").is_ok());
}

#[test]
fn refused_template_stages_nothing() {
    let mut renamer = MediaRenamer::new("/tmp");
    let file = clip(None);
    let r = renamer.stage_single_rename(&file, "{filename}?");
    assert!(matches!(r, Err(MediaManagerError::InvalidTemplate(_))));
    assert!(!renamer.has_store());
    assert!(renamer.load_staged_renames().is_empty());
}

#[test]
fn preview_of_refused_template_is_invalid() {
    let renamer = MediaRenamer::new("/tmp");
    let file = clip(None);
    let preview = renamer.preview_rename(&file, "a|b", false).unwrap();
    assert_eq!(preview.original_path, "/videos/clip.mp4");
    assert_eq!(preview.new_path, "/videos/clip.mp4");
    assert!(!preview.is_valid);
    assert_eq!(
        preview.validation_message.unwrap(),
        "Invalid template: Generated filename contains invalid characters: a|b"
    );
}

#[test]
fn preview_of_existing_target_is_invalid() {
    let renamer = MediaRenamer::new("/tmp");
    let file = clip(None);
    let preview = renamer.preview_rename(&file, "other", true).unwrap();
    assert_eq!(preview.new_path, "/videos/other.mp4");
    assert!(!preview.is_valid);
    assert_eq!(preview.validation_message.unwrap(), "Target path already exists");
}

#[test]
fn path_without_parent_is_an_error() {
    let mut renamer = MediaRenamer::new("/tmp");
    let file = MediaFile::new("/".to_string());
    match renamer.target_path(&file, "x") {
        Err(MediaManagerError::Unknown(m)) => {
            assert_eq!(m, "Could not get parent directory for /");
        }
        _ => panic!("a path without parent was accepted"),
    }
    assert!(matches!(renamer.preview_rename(&file, "x", false), Err(MediaManagerError::Unknown(_))));
    assert!(matches!(renamer.stage_single_rename(&file, "x"), Err(MediaManagerError::Unknown(_))));
    assert!(!renamer.has_store());
}

#[test]
fn relative_path_is_renamed_in_place() {
    let renamer = MediaRenamer::new("/tmp");
    let file = MediaFile::new("clip.mp4".to_string());
    assert_eq!(renamer.target_path(&file, "new").unwrap(), "new.mp4");
}

#[test]
fn staging_file_lies_in_the_given_directory() {
    let renamer = MediaRenamer::new("/tmp");
    assert_eq!(renamer.staged_renames_path(), "/tmp/media_manager_staged_renames.json");
}

#[test]
fn fresh_store_loads_empty() {
    let renamer = MediaRenamer::new("/tmp");
    assert!(!renamer.has_store());
    assert!(renamer.load_staged_renames().is_empty());
}

#[test]
fn appended_intents_load_in_order() {
    let mut renamer = MediaRenamer::new("/tmp");
    renamer.append(intent("/v/a.mp4", "/v/b.mp4"));
    renamer.append(intent("/v/b.mp4", "/v/c.mp4"));
    renamer.append(intent("/v/x.mp4", "/v/y.mp4"));
    assert_eq!(
        pairs(&renamer.load_staged_renames()),
        vec![pair("/v/a.mp4", "/v/b.mp4"), pair("/v/b.mp4", "/v/c.mp4"), pair("/v/x.mp4", "/v/y.mp4")]
    );
}

#[test]
fn staged_renames_load_in_order() {
    let mut renamer = MediaRenamer::new("/tmp");
    let first = MediaFile::new("/v/one.mkv".to_string());
    let second = MediaFile::new("/w/two.avi".to_string());
    renamer.stage_single_rename(&first, "{filename}_1").unwrap();
    renamer.stage_single_rename(&second, "{extension}_2").unwrap();
    assert_eq!(
        pairs(&renamer.load_staged_renames()),
        vec![pair("/v/one.mkv", "/v/one_1.mkv"), pair("/w/two.avi", "/w/avi_2.avi")]
    );
}

#[test]
fn save_replaces_and_clear_empties() {
    let mut renamer = MediaRenamer::new("/tmp");
    renamer.append(intent("a", "b"));
    renamer.save_staged_renames(&[intent("c", "d"), intent("e", "f")]);
    assert_eq!(pairs(&renamer.load_staged_renames()), vec![pair("c", "d"), pair("e", "f")]);
    renamer.clear_staged_renames();
    assert!(!renamer.has_store());
    assert!(renamer.load_staged_renames().is_empty());
    renamer.clear_staged_renames();
    assert!(!renamer.has_store());
    renamer.save_staged_renames(&[]);
    assert!(renamer.has_store());
    assert!(renamer.load_staged_renames().is_empty());
}

#[test]
fn commit_of_nothing_is_refused() {
    let renamer = MediaRenamer::new("/tmp");
    assert!(matches!(renamer.commit_renames(), Err(MediaManagerError::NoStagedRenames)));
    assert!(!renamer.has_store());
    let mut stored_empty = MediaRenamer::new("/tmp");
    stored_empty.save_staged_renames(&[]);
    assert!(matches!(stored_empty.commit_renames(), Err(MediaManagerError::NoStagedRenames)));
    assert!(stored_empty.has_store());
}

#[test]
fn commit_runs_in_order_and_clears_the_store() {
    let mut renamer = MediaRenamer::new("/tmp");
    renamer.append(intent("a", "b"));
    renamer.append(intent("c", "d"));
    renamer.append(intent("e", "f"));
    let mut run = renamer.commit_renames().unwrap();
    let mut issued = Vec::new();
    while let Some(step) = run.next_rename() {
        issued.push((step.original_path.clone(), step.new_path.clone()));
        run.record(RenameOutcome::Renamed).unwrap();
    }
    assert_eq!(issued, vec![pair("a", "b"), pair("c", "d"), pair("e", "f")]);
    assert!(run.is_complete());
    assert_eq!(run.completed(), 3);
    assert_eq!(renamer.load_staged_renames().len(), 3);
    let ops = renamer.finish_commit(&run);
    assert!(!renamer.has_store());
    let done: Vec<(String, String)> =
        ops.iter().map(|o| (o.original_path.clone(), o.new_path.clone())).collect();
    assert_eq!(done, vec![pair("a", "b"), pair("c", "d"), pair("e", "f")]);

    let mut undo = renamer.undo_renames(ops).unwrap();
    let mut reversed = Vec::new();
    while let Some(step) = undo.next_rename() {
        reversed.push((step.original_path.clone(), step.new_path.clone()));
        undo.record(RenameOutcome::Renamed).unwrap();
    }
    assert_eq!(reversed, vec![pair("f", "e"), pair("d", "c"), pair("b", "a")]);
    assert!(undo.is_complete());
}

#[test]
fn commit_stops_at_the_first_failure() {
    let mut renamer = MediaRenamer::new("/tmp");
    renamer.append(intent("a", "b"));
    renamer.append(intent("gone", "d"));
    renamer.append(intent("e", "f"));
    let mut run = renamer.commit_renames().unwrap();
    assert_eq!(run.next_rename().unwrap().original_path, "a");
    run.record(RenameOutcome::Renamed).unwrap();
    assert_eq!(run.next_rename().unwrap().original_path, "gone");
    match run.record(RenameOutcome::Failed("No such file or directory".to_string())) {
        Err(e) => {
            assert_eq!(
                e.message(),
                "Rename failed for 'gone' to 'd': No such file or directory"
            );
            match e {
                MediaManagerError::RenameFailed(from, to, cause) => {
                    assert_eq!(from, "gone");
                    assert_eq!(to, "d");
                    assert_eq!(cause, "No such file or directory");
                }
                _ => panic!("another error than a failed rename"),
            }
        }
        Ok(()) => panic!("a failed rename was taken for done"),
    }
    assert_eq!(run.completed(), 1);
    assert!(!run.is_complete());
    let applied = run.carried_out();
    assert_eq!(applied.len(), 1);
    assert_eq!(applied[0].original_path, "a");
    assert_eq!(applied[0].new_path, "b");
    assert_eq!(renamer.load_staged_renames().len(), 3);
    assert!(renamer.has_store());
}

#[test]
fn run_over_no_renames_is_complete() {
    let run = RenameRun::over(Vec::new());
    assert!(run.is_complete());
    assert!(run.next_rename().is_none());
    assert!(run.carried_out().is_empty());
}

#[test]
fn render_agrees_with_the_renamer() {
    let renamer = MediaRenamer::new("/tmp");
    let file = clip(Some(full_metadata()));
    assert_eq!(render(&file, "{codec}.{filename}").unwrap(), "h264.clip");
    assert_eq!(
        render(&file, "{codec}.{filename}").unwrap(),
        renamer.apply_template(&file, "{codec}.{filename}").unwrap()
    );
    assert!(matches!(render(&file, "*"), Err(MediaManagerError::InvalidTemplate(_))));
    assert_eq!(render(&file, "").unwrap(), "");
}

#[test]
fn rendered_name_renders_to_itself() {
    let file = clip(Some(full_metadata()));
    let once = render(&file, "{filename} {resolution} {codec}").unwrap();
    assert_eq!(once, "clip 1920x1080 h264");
    assert_eq!(render(&file, &once).unwrap(), once);
}

#[test]
fn undo_of_nothing_is_refused() {
    let renamer = MediaRenamer::new("/tmp");
    assert!(matches!(renamer.undo_renames(Vec::new()), Err(MediaManagerError::NoUndoData)));
}

#[test]
fn undo_stops_at_the_first_failure() {
    let renamer = MediaRenamer::new("/tmp");
    let ops = vec![
        RenameOperation { original_path: "a".to_string(), new_path: "b".to_string() },
        RenameOperation { original_path: "c".to_string(), new_path: "d".to_string() },
    ];
    let mut run = renamer.undo_renames(ops).unwrap();
    let r = run.record(RenameOutcome::Failed("denied".to_string()));
    match r {
        Err(MediaManagerError::RenameFailed(from, to, cause)) => {
            assert_eq!(from, "d");
            assert_eq!(to, "c");
            assert_eq!(cause, "denied");
        }
        _ => panic!("another result than a failed rename"),
    }
    assert_eq!(run.completed(), 0);
}

#[test]
fn journal_is_taken_once() {
    let mut renamer = MediaRenamer::new("/tmp");
    let mut manager = UndoManager::new("/work");
    assert_eq!(manager.undo_file_path(), "/work/.media_manager/undo_data.json");
    assert_eq!(UndoManager::journal_dir("/work"), "/work/.media_manager");
    assert!(manager.load_undo_data().is_none());
    assert!(manager.take_undo_data().is_none());

    renamer.append(intent("a", "b"));
    let mut run = renamer.commit_renames().unwrap();
    run.record(RenameOutcome::Renamed).unwrap();
    let ops = renamer.finish_commit(&run);
    manager.save_undo_data(&UndoData { operations: ops });
    assert_eq!(manager.load_undo_data().unwrap().operations.len(), 1);

    let taken = manager.take_undo_data().unwrap();
    assert_eq!(taken.operations[0].original_path, "a");
    assert_eq!(taken.operations[0].new_path, "b");
    let mut undo = renamer.undo_renames(taken.operations).unwrap();
    undo.record(RenameOutcome::Renamed).unwrap();
    manager.clear_undo_data();

    assert!(manager.take_undo_data().is_none());
    assert!(manager.load_undo_data().is_none());
}

#[test]
fn saving_replaces_the_journal() {
    let mut manager = UndoManager::new("/work");
    let first = UndoData {
        operations: vec![RenameOperation { original_path: "a".to_string(), new_path: "b".to_string() }],
    };
    let second = UndoData {
        operations: vec![
            RenameOperation { original_path: "c".to_string(), new_path: "d".to_string() },
            RenameOperation { original_path: "e".to_string(), new_path: "f".to_string() },
        ],
    };
    manager.save_undo_data(&first);
    manager.save_undo_data(&second);
    let loaded = manager.load_undo_data().unwrap();
    assert_eq!(loaded.operations.len(), 2);
    assert_eq!(loaded.operations[1].new_path, "f");
    manager.clear_undo_data();
    assert!(manager.load_undo_data().is_none());
}
