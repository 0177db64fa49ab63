//! The undo journal: the most recently committed batch, kept until it is
//! undone or replaced.

use vstd::prelude::*;
use vstd::string::*;
use crate::paths::{join, joined};

verus! {

/// A rename that was carried out: `original_path` became `new_path`.
#[derive(Debug)]
pub struct RenameOperation {
    pub original_path: String,
    pub new_path: String,
}

impl View for RenameOperation {
    type V = (Seq<char>, Seq<char>);

    open spec fn view(&self) -> (Seq<char>, Seq<char>) {
        (self.original_path@, self.new_path@)
    }
}

impl Clone for RenameOperation {
    fn clone(&self) -> (r: Self)
        ensures
            r@ == self@,
    {
        RenameOperation {
            original_path: self.original_path.clone(),
            new_path: self.new_path.clone(),
        }
    }
}

/// The pairs (original path, new path) of a sequence of operations.
pub open spec fn operations(ops: Seq<RenameOperation>) -> Seq<(Seq<char>, Seq<char>)> {
    Seq::new(ops.len(), |i: int| ops[i]@)
}

/// Copies a batch of operations.
pub fn copy_operations(ops: &Vec<RenameOperation>) -> (r: Vec<RenameOperation>)
    ensures
        operations(r@) == operations(ops@),
{
    let mut out: Vec<RenameOperation> = Vec::new();
    let mut i: usize = 0;
    while i < ops.len()
        invariant
            i <= ops.len(),
            operations(out@) == operations(ops@).subrange(0, i as int),
        decreases ops.len() - i,
    {
        let ghost before = out@;
        out.push(ops[i].clone());
        assert(operations(out@) =~= operations(before).push(ops@[i as int]@));
        assert(operations(out@) =~= operations(ops@).subrange(0, i + 1));
        i += 1;
    }
    assert(operations(ops@).subrange(0, ops.len() as int) =~= operations(ops@));
    out
}

/// One committed batch, in the order in which it was committed.
#[derive(Debug)]
pub struct UndoData {
    pub operations: Vec<RenameOperation>,
}

impl View for UndoData {
    type V = Seq<(Seq<char>, Seq<char>)>;

    open spec fn view(&self) -> Seq<(Seq<char>, Seq<char>)> {
        operations(self.operations@)
    }
}

impl Clone for UndoData {
    fn clone(&self) -> (r: Self)
        ensures
            r@ == self@,
    {
        UndoData { operations: copy_operations(&self.operations) }
    }
}

/// The directory of the workspace at `workspace_dir` that holds the
/// journal's file.
pub open spec fn journal_dir_text(workspace_dir: Seq<char>) -> Seq<char> {
    joined(workspace_dir, ".media_manager"@)
}

/// Keeps the undo journal of a workspace. The journal holds at most one
/// batch: saving replaces it, taking or clearing empties it.
pub struct UndoManager {
    undo_file_path: String,
    journal: Option<UndoData>,
}

impl UndoManager {
    /// The journal's content: the recorded batch, if there is one.
    pub closed spec fn recorded(&self) -> Option<Seq<(Seq<char>, Seq<char>)>> {
        match self.journal {
            Some(data) => Some(data@),
            None => None,
        }
    }

    /// The path of the file that persists the journal.
    pub closed spec fn file_path(&self) -> Seq<char> {
        self.undo_file_path@
    }

    /// The path of the file that persists the journal.
    pub fn undo_file_path(&self) -> (r: &String)
        ensures
            r@ == self.file_path(),
    {
        &self.undo_file_path
    }

    /// The manager of the workspace at `workspace_dir`, with nothing
    /// recorded. The journal's file is `undo_data.json` in the directory
    /// `.media_manager` of the workspace.
    pub fn new(workspace_dir: &str) -> (r: Self)
        ensures
            r.recorded() is None,
            r.file_path() == joined(journal_dir_text(workspace_dir@), "undo_data.json"@),
    {
        let undo_dir = join(workspace_dir, ".media_manager");
        let undo_file_path = join(undo_dir.as_str(), "undo_data.json");
        UndoManager { undo_file_path, journal: None }
    }

    /// The directory that holds the journal's file.
    pub fn journal_dir(workspace_dir: &str) -> (r: String)
        ensures
            r@ == journal_dir_text(workspace_dir@),
    {
        join(workspace_dir, ".media_manager")
    }

    /// Records `data` as the batch to undo, in place of any earlier one.
    pub fn save_undo_data(&mut self, data: &UndoData)
        ensures
            final(self).recorded() == Some(data@),
            final(self).file_path() == old(self).file_path(),
    {
        self.journal = Some(data.clone());
    }

    /// The recorded batch, if there is one. The journal keeps it.
    pub fn load_undo_data(&self) -> (r: Option<UndoData>)
        ensures
            r is Some <==> self.recorded() is Some,
            r matches Some(data) ==> self.recorded() == Some(data@),
    {
        match &self.journal {
            Some(data) => Some(data.clone()),
            None => None,
        }
    }

    /// Hands out the recorded batch and empties the journal, so that a batch
    /// is undone at most once.
    pub fn take_undo_data(&mut self) -> (r: Option<UndoData>)
        ensures
            r is Some <==> old(self).recorded() is Some,
            r matches Some(data) ==> old(self).recorded() == Some(data@),
            final(self).recorded() is None,
            final(self).file_path() == old(self).file_path(),
    {
        self.journal.take()
    }

    /// Empties the journal. Emptying an empty journal changes nothing.
    pub fn clear_undo_data(&mut self)
        ensures
            final(self).recorded() is None,
            final(self).file_path() == old(self).file_path(),
    {
        self.journal = None;
    }
}

} // verus!
