//! The renamer: the staging store, previews, and the beginning and end of
//! the runs that commit a batch and undo one.

use vstd::prelude::*;
use vstd::string::*;
use crate::error::MediaManagerError;
use crate::media_file::MediaFile;
use crate::paths::{join, joined, parent, parent_of};
use crate::run::{reversal, RenameRun};
use crate::template::{invalid_name_text, is_render_of, render, rendered};
use crate::text::{decimal, has_reserved, push_decimal, string_of, text_of};
use crate::undo::{operations, RenameOperation};

verus! {

/// What a rename would do, and whether it may be carried out.
#[derive(Debug)]
pub struct RenamePreview {
    pub original_path: String,
    pub new_path: String,
    pub is_valid: bool,
    /// Why the rename is not valid; `None` where it is.
    pub validation_message: Option<String>,
}

/// A rename that is wanted and not yet carried out.
#[derive(Debug)]
pub struct StagedRename {
    pub original_path: String,
    pub new_path: String,
}

impl View for StagedRename {
    type V = (Seq<char>, Seq<char>);

    open spec fn view(&self) -> (Seq<char>, Seq<char>) {
        (self.original_path@, self.new_path@)
    }
}

impl StagedRename {
    /// The line that lists this rename as the one at `position` of a batch.
    pub open spec fn listing(&self, position: nat) -> Seq<char> {
        decimal(position) + ". '"@ + self.original_path@ + "' -> '"@ + self.new_path@ + "'"@
    }

    /// The line that lists this rename as the one at `position` of a batch:
    /// the position, then the two paths in quotes with an arrow between them.
    pub fn describe(&self, position: usize) -> (r: String)
        ensures
            r@ == self.listing(position as nat),
    {
        let mut number: Vec<char> = Vec::new();
        push_decimal(&mut number, position as u64);
        assert(number@ =~= decimal(position as nat));
        string_of(&number).concat(". '").concat(self.original_path.as_str()).concat(
            "' -> '",
        ).concat(self.new_path.as_str()).concat("'")
    }
}

impl Clone for StagedRename {
    fn clone(&self) -> (r: Self)
        ensures
            r@ == self@,
    {
        StagedRename {
            original_path: self.original_path.clone(),
            new_path: self.new_path.clone(),
        }
    }
}

/// The pairs (original path, new path) of a batch, in its order.
pub open spec fn intents(batch: Seq<StagedRename>) -> Seq<(Seq<char>, Seq<char>)> {
    Seq::new(batch.len(), |i: int| batch[i]@)
}

/// Copies a batch.
pub fn copy_batch(batch: &[StagedRename]) -> (r: Vec<StagedRename>)
    ensures
        intents(r@) == intents(batch@),
{
    let mut out: Vec<StagedRename> = Vec::new();
    let mut i: usize = 0;
    while i < batch.len()
        invariant
            i <= batch.len(),
            intents(out@) == intents(batch@).subrange(0, i as int),
        decreases batch.len() - i,
    {
        let ghost before = out@;
        out.push(batch[i].clone());
        assert(intents(out@) =~= intents(before).push(batch@[i as int]@));
        assert(intents(out@) =~= intents(batch@).subrange(0, i + 1));
        i += 1;
    }
    assert(intents(batch@).subrange(0, batch.len() as int) =~= intents(batch@));
    out
}

/// Appending intents one by one to a staging store and loading it gives
/// what the store held before, followed by the appended intents in the
/// order in which they were appended.
pub proof fn lemma_appended_intents_load_in_order(
    store: Option<Seq<(Seq<char>, Seq<char>)>>,
    added: Seq<(Seq<char>, Seq<char>)>,
)
    ensures
        loaded(appended_all(store, added)) == loaded(store) + added,
        store is None ==> loaded(appended_all(store, added)) == added,
    decreases added.len(),
{
    if added.len() == 0 {
        assert(loaded(store) + added =~= loaded(store));
    } else {
        lemma_appended_intents_load_in_order(store, added.drop_last());
        assert(loaded(store) + added =~= (loaded(store) + added.drop_last()).push(added.last()));
    }
    if store is None {
        assert(loaded(store) + added =~= added);
    }
}

/// The path that a rename of `file` by `template` gives it: the rendered
/// name, a dot and the file's extension, in the directory of the file;
/// `None` where the file's path has no parent directory.
pub open spec fn target(file: &MediaFile, template: Seq<char>) -> Option<Seq<char>> {
    match parent(file.path@) {
        Some(dir) => Some(joined(dir, rendered(file, template) + "."@ + file.extension@)),
        None => None,
    }
}

/// Whether `r` is the result of asking for the path that a rename of `file`
/// by `template` gives it: the error of the rendering where the name is
/// refused; else the error that names the file's path where it has no
/// parent directory; else the target.
pub open spec fn is_target_of(
    file: &MediaFile,
    template: Seq<char>,
    r: Result<String, MediaManagerError>,
) -> bool {
    if has_reserved(rendered(file, template)) {
        r matches Err(MediaManagerError::InvalidTemplate(m)) && m@ == invalid_name_text(
            rendered(file, template),
        )
    } else {
        match target(file, template) {
            Some(path) => r matches Ok(p) && p@ == path,
            None => r matches Err(MediaManagerError::Unknown(m)) && m@ == no_parent_text(
                file.path@,
            ),
        }
    }
}

/// The explanation carried by the error for a path without a parent directory.
pub open spec fn no_parent_text(path: Seq<char>) -> Seq<char> {
    "Could not get parent directory for "@ + path
}

/// What the staging store returns on load: the stored batch, or the empty
/// batch where nothing is stored.
pub open spec fn loaded(store: Option<Seq<(Seq<char>, Seq<char>)>>) -> Seq<(Seq<char>, Seq<char>)> {
    match store {
        Some(batch) => batch,
        None => Seq::empty(),
    }
}

/// The staging store after `intent` was appended: what it held, with
/// `intent` at the end.
pub open spec fn appended(
    store: Option<Seq<(Seq<char>, Seq<char>)>>,
    intent: (Seq<char>, Seq<char>),
) -> Option<Seq<(Seq<char>, Seq<char>)>> {
    Some(loaded(store).push(intent))
}

/// The staging store after each of `added` was appended, first to last.
pub open spec fn appended_all(
    store: Option<Seq<(Seq<char>, Seq<char>)>>,
    added: Seq<(Seq<char>, Seq<char>)>,
) -> Option<Seq<(Seq<char>, Seq<char>)>>
    decreases added.len(),
{
    if added.len() == 0 {
        store
    } else {
        appended(appended_all(store, added.drop_last()), added.last())
    }
}

/// Names files from templates and keeps the staging store: the batch of
/// renames that wait for a commit.
pub struct MediaRenamer {
    staged_renames_path: String,
    staged: Option<Vec<StagedRename>>,
}

impl MediaRenamer {
    /// The content of the staging store: the stored batch, or `None` where
    /// nothing is stored.
    pub closed spec fn store(&self) -> Option<Seq<(Seq<char>, Seq<char>)>> {
        match self.staged {
            Some(batch) => Some(intents(batch@)),
            None => None,
        }
    }

    /// The path of the file that persists the staging store.
    pub closed spec fn file_path(&self) -> Seq<char> {
        self.staged_renames_path@
    }

    /// A renamer whose staging store is empty. The store's file is
    /// `media_manager_staged_renames.json` in `temp_dir`.
    pub fn new(temp_dir: &str) -> (r: Self)
        ensures
            r.store() is None,
            r.file_path() == joined(temp_dir@, "media_manager_staged_renames.json"@),
    {
        MediaRenamer {
            staged_renames_path: join(temp_dir, "media_manager_staged_renames.json"),
            staged: None,
        }
    }

    /// The path of the file that persists the staging store.
    pub fn staged_renames_path(&self) -> (r: &String)
        ensures
            r@ == self.file_path(),
    {
        &self.staged_renames_path
    }

    /// Whether the staging store holds a batch, be it an empty one.
    pub fn has_store(&self) -> (r: bool)
        ensures
            r == self.store() is Some,
    {
        self.staged.is_some()
    }

    /// The staged batch, in the order in which it was staged; the empty
    /// batch where nothing is stored.
    pub fn load_staged_renames(&self) -> (r: Vec<StagedRename>)
        ensures
            intents(r@) == loaded(self.store()),
    {
        match &self.staged {
            Some(batch) => copy_batch(batch.as_slice()),
            None => {
                let r: Vec<StagedRename> = Vec::new();
                assert(intents(r@) =~= loaded(self.store()));
                r
            },
        }
    }

    /// Stores `staged_renames` as the staged batch, in place of what was stored.
    pub fn save_staged_renames(&mut self, staged_renames: &[StagedRename])
        ensures
            final(self).store() == Some(intents(staged_renames@)),
            final(self).file_path() == old(self).file_path(),
    {
        self.staged = Some(copy_batch(staged_renames));
    }

    /// Empties the staging store. Emptying an empty store changes nothing.
    pub fn clear_staged_renames(&mut self)
        ensures
            final(self).store() is None,
            final(self).file_path() == old(self).file_path(),
    {
        self.staged = None;
    }

    /// Appends `intent` to the staged batch.
    pub fn append(&mut self, intent: StagedRename)
        ensures
            final(self).store() == appended(old(self).store(), intent@),
            final(self).file_path() == old(self).file_path(),
    {
        let mut batch = self.load_staged_renames();
        let ghost before = batch@;
        batch.push(intent);
        assert(intents(batch@) =~= intents(before).push(intent@));
        self.staged = Some(batch);
    }

    /// The name that `template` gives for `media_file`, as in
    /// `{filename} [{resolution}]`. A name that holds a reserved character is
    /// refused.
    pub fn apply_template(&self, media_file: &MediaFile, template: &str) -> (r: Result<
        String,
        MediaManagerError,
    >)
        ensures
            is_render_of(media_file, template@, r),
    {
        render(media_file, template)
    }

    /// The path that a rename of `media_file` by `template` would give it:
    /// the rendered name, a dot and the file's extension, in the directory
    /// of the file.
    pub fn target_path(&self, media_file: &MediaFile, template: &str) -> (r: Result<
        String,
        MediaManagerError,
    >)
        ensures
            is_target_of(media_file, template@, r),
    {
        let stem = match self.apply_template(media_file, template) {
            Ok(name) => name,
            Err(e) => {
                return Err(e);
            },
        };
        let new_filename = stem.concat(".").concat(media_file.extension.as_str());
        match parent_of(media_file.path.as_str()) {
            Some(dir) => Ok(join(dir.as_str(), new_filename.as_str())),
            None => Err(
                MediaManagerError::Unknown(
                    String::from_str("Could not get parent directory for ").concat(
                        media_file.path.as_str(),
                    ),
                ),
            ),
        }
    }

    /// Says what a rename of `media_file` by `template` would do, without
    /// doing or staging anything. `target_exists` tells whether a file
    /// already stands at the path that `target_path` gives; it is not looked
    /// at where that path cannot be had. A refused name makes the preview
    /// invalid, with the error's message; a file in the way makes it invalid
    /// too.
    pub fn preview_rename(&self, media_file: &MediaFile, template: &str, target_exists: bool) -> (r:
        Result<RenamePreview, MediaManagerError>)
        ensures
            has_reserved(rendered(media_file, template@)) ==> (r matches Ok(p) && p.original_path@
                == media_file.path@ && p.new_path@ == media_file.path@ && !p.is_valid && (
            p.validation_message matches Some(m) && m@ == "Invalid template: "@ + invalid_name_text(
                rendered(media_file, template@),
            ))),
            !has_reserved(rendered(media_file, template@)) ==> match target(media_file, template@) {
                Some(path) => r matches Ok(p) && p.original_path@ == media_file.path@ && p.new_path@
                    == path && p.is_valid == !target_exists && text_of(p.validation_message) == (
                if target_exists {
                    Some("Target path already exists"@)
                } else {
                    None
                }),
                None => r matches Err(MediaManagerError::Unknown(m)) && m@ == no_parent_text(
                    media_file.path@,
                ),
            },
    {
        match self.target_path(media_file, template) {
            Ok(new_path) => Ok(Self::preview_at(media_file.path.as_str(), new_path, target_exists)),
            Err(e) => {
                match e {
                    MediaManagerError::InvalidTemplate(_) => {
                        let message = e.message();
                        Ok(
                            RenamePreview {
                                original_path: media_file.path.clone(),
                                new_path: media_file.path.clone(),
                                is_valid: false,
                                validation_message: Some(message),
                            },
                        )
                    },
                    _ => Err(e),
                }
            },
        }
    }

    /// The preview of a rename from `original_path` to `new_path`: valid
    /// exactly when nothing stands at `new_path` yet.
    pub fn preview_at(original_path: &str, new_path: String, target_exists: bool) -> (p:
        RenamePreview)
        ensures
            p.original_path@ == original_path@,
            p.new_path == new_path,
            p.is_valid == !target_exists,
            text_of(p.validation_message) == (if target_exists {
                Some("Target path already exists"@)
            } else {
                None
            }),
    {
        let validation_message = if target_exists {
            Some(String::from_str("Target path already exists"))
        } else {
            None
        };
        RenamePreview {
            original_path: String::from_str(original_path),
            new_path,
            is_valid: !target_exists,
            validation_message,
        }
    }

    /// Stages the rename of `media_file` by `template`: appends the intent
    /// from the file's path to its target to the staged batch. Where the
    /// name is refused, or the file's path has no parent directory, nothing
    /// is staged.
    pub fn stage_single_rename(&mut self, media_file: &MediaFile, template: &str) -> (r: Result<
        (),
        MediaManagerError,
    >)
        ensures
            final(self).file_path() == old(self).file_path(),
            r is Err ==> final(self).store() == old(self).store(),
            has_reserved(rendered(media_file, template@)) ==> (r matches Err(
                MediaManagerError::InvalidTemplate(m),
            ) && m@ == invalid_name_text(rendered(media_file, template@))),
            !has_reserved(rendered(media_file, template@)) ==> match target(media_file, template@) {
                Some(path) => r is Ok && final(self).store() == appended(
                    old(self).store(),
                    (media_file.path@, path),
                ),
                None => r matches Err(MediaManagerError::Unknown(m)) && m@ == no_parent_text(
                    media_file.path@,
                ),
            },
    {
        let new_path = match self.target_path(media_file, template) {
            Ok(p) => p,
            Err(e) => {
                return Err(e);
            },
        };
        let intent = StagedRename { original_path: media_file.path.clone(), new_path };
        self.append(intent);
        Ok(())
    }

    /// Begins the commit of the staged batch: the run that renames each
    /// staged file, in staging order. With nothing staged there is nothing to
    /// commit. The staging store is left as it is until `finish_commit`.
    pub fn commit_renames(&self) -> (r: Result<RenameRun, MediaManagerError>)
        ensures
            loaded(self.store()).len() == 0 ==> r matches Err(MediaManagerError::NoStagedRenames),
            loaded(self.store()).len() > 0 ==> (r matches Ok(run) && run.plan()
                == loaded(self.store()) && run.done() == 0),
    {
        let batch = self.load_staged_renames();
        if batch.len() == 0 {
            return Err(MediaManagerError::NoStagedRenames);
        }
        Ok(RenameRun::over(batch))
    }

    /// Ends a commit whose every rename was carried out: empties the staging
    /// store and returns the operations that were carried out, in the order
    /// of the batch.
    pub fn finish_commit(&mut self, run: &RenameRun) -> (r: Vec<RenameOperation>)
        requires
            run.done() == run.plan().len(),
        ensures
            operations(r@) == run.plan(),
            final(self).store() is None,
            final(self).file_path() == old(self).file_path(),
    {
        let ops = run.carried_out();
        assert(run.plan().subrange(0, run.plan().len() as int) =~= run.plan());
        self.staged = None;
        ops
    }

    /// Begins the undo of a committed batch: the run that renames each file
    /// back, the last operation first. With no operation there is nothing to
    /// undo.
    pub fn undo_renames(&self, operations: Vec<RenameOperation>) -> (r: Result<
        RenameRun,
        MediaManagerError,
    >)
        ensures
            operations@.len() == 0 ==> r matches Err(MediaManagerError::NoUndoData),
            operations@.len() > 0 ==> (r matches Ok(run) && run.plan() == reversal(
                crate::undo::operations(operations@),
            ) && run.done() == 0),
    {
        if operations.len() == 0 {
            return Err(MediaManagerError::NoUndoData);
        }
        let n = operations.len();
        let mut plan: Vec<StagedRename> = Vec::new();
        let mut i: usize = 0;
        while i < n
            invariant
                n == operations@.len(),
                i <= n,
                intents(plan@) == reversal(crate::undo::operations(operations@)).subrange(
                    0,
                    i as int,
                ),
            decreases n - i,
        {
            let op = &operations[n - 1 - i];
            let ghost before = plan@;
            plan.push(
                StagedRename {
                    original_path: op.new_path.clone(),
                    new_path: op.original_path.clone(),
                },
            );
            assert(intents(plan@) =~= intents(before).push((op.new_path@, op.original_path@)));
            assert(reversal(crate::undo::operations(operations@))[i as int] == (
                op.new_path@,
                op.original_path@,
            ));
            assert(intents(plan@) =~= reversal(crate::undo::operations(operations@)).subrange(
                0,
                i + 1,
            ));
            i += 1;
        }
        assert(reversal(crate::undo::operations(operations@)).subrange(0, n as int) =~= reversal(
            crate::undo::operations(operations@),
        ));
        Ok(RenameRun::over(plan))
    }
}

} // verus!
