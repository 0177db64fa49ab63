//! A batch of renames carried out in order, and what it does to the files.

use vstd::prelude::*;
use vstd::string::*;
use crate::error::MediaManagerError;
use crate::renamer::{intents, StagedRename};
use crate::undo::{operations, RenameOperation};

verus! {

/// The renames that undo `ops`: the last operation first, each from its new
/// path back to its original path.
pub open spec fn reversal(ops: Seq<(Seq<char>, Seq<char>)>) -> Seq<(Seq<char>, Seq<char>)> {
    Seq::new(ops.len(), |i: int| (ops[ops.len() - 1 - i].1, ops[ops.len() - 1 - i].0))
}

/// The files after the rename `step` was carried out on `files`, a map
/// from each path that holds a file to what the file is: what stood at the
/// first path of `step` stands at its second.
pub open spec fn after_rename(files: Map<Seq<char>, int>, step: (Seq<char>, Seq<char>)) -> Map<
    Seq<char>,
    int,
> {
    files.remove(step.0).insert(step.1, files[step.0])
}

/// Whether the rename `step` finds its file in `files` and nothing in its way.
pub open spec fn renamable(files: Map<Seq<char>, int>, step: (Seq<char>, Seq<char>)) -> bool {
    files.dom().contains(step.0) && !files.dom().contains(step.1)
}

/// The files after the renames of `plan` were carried out on `files`, first
/// to last.
pub open spec fn after_renames(
    files: Map<Seq<char>, int>,
    plan: Seq<(Seq<char>, Seq<char>)>,
) -> Map<Seq<char>, int>
    decreases plan.len(),
{
    if plan.len() == 0 {
        files
    } else {
        after_renames(after_rename(files, plan[0]), plan.drop_first())
    }
}

/// Whether each rename of `plan`, when its turn comes, finds its file and
/// nothing in its way.
pub open spec fn all_renamable(files: Map<Seq<char>, int>, plan: Seq<(Seq<char>, Seq<char>)>) -> bool
    decreases plan.len(),
{
    plan.len() == 0 || (renamable(files, plan[0]) && all_renamable(
        after_rename(files, plan[0]),
        plan.drop_first(),
    ))
}

/// Carrying out one plan and then another is carrying out the two in a row.
pub proof fn lemma_renames_in_a_row(
    files: Map<Seq<char>, int>,
    a: Seq<(Seq<char>, Seq<char>)>,
    b: Seq<(Seq<char>, Seq<char>)>,
)
    ensures
        after_renames(files, a + b) == after_renames(after_renames(files, a), b),
        all_renamable(files, a + b) <==> all_renamable(files, a) && all_renamable(
            after_renames(files, a),
            b,
        ),
    decreases a.len(),
{
    if a.len() == 0 {
        assert(a + b =~= b);
    } else {
        assert((a + b)[0] == a[0]);
        assert((a + b).drop_first() =~= a.drop_first() + b);
        lemma_renames_in_a_row(after_rename(files, a[0]), a.drop_first(), b);
    }
}

/// Undoing a committed batch restores the files: where each rename of
/// `plan` found its file and nothing in its way, so does each rename of the
/// reversal of `plan`, and after them every file stands where it stood
/// before the commit.
pub proof fn lemma_undo_restores_files(
    files: Map<Seq<char>, int>,
    plan: Seq<(Seq<char>, Seq<char>)>,
)
    requires
        all_renamable(files, plan),
    ensures
        all_renamable(after_renames(files, plan), reversal(plan)),
        after_renames(after_renames(files, plan), reversal(plan)) == files,
    decreases plan.len(),
{
    if plan.len() == 0 {
        assert(reversal(plan) =~= plan);
    } else {
        let step = plan[0];
        let rest = plan.drop_first();
        let moved = after_rename(files, step);
        let back = seq![(step.1, step.0)];
        lemma_undo_restores_files(moved, rest);
        assert(reversal(plan) =~= reversal(rest) + back);
        let committed = after_renames(files, plan);
        lemma_renames_in_a_row(committed, reversal(rest), back);
        assert(after_renames(committed, reversal(rest)) == moved);
        assert(back.drop_first() =~= Seq::<(Seq<char>, Seq<char>)>::empty());
        assert(renamable(moved, back[0]));
        assert(after_rename(moved, back[0]) =~= files);
        assert(after_renames(moved, back) == after_renames(
            after_rename(moved, back[0]),
            back.drop_first(),
        ));
        assert(all_renamable(after_rename(moved, back[0]), back.drop_first()));
    }
}

/// What the filesystem answered to one rename.
#[derive(Debug)]
pub enum RenameOutcome {
    /// The file was renamed.
    Renamed,
    /// The rename failed, for the cause given.
    Failed(String),
}

/// A batch of renames being carried out in order. The caller performs the
/// rename that `next_rename` names and reports what came of it with
/// `record`, until none is left or one fails.
#[derive(Debug)]
pub struct RenameRun {
    plan: Vec<StagedRename>,
    done: usize,
}

impl RenameRun {
    /// The renames of this run as pairs (from, to), in the order in which
    /// they are carried out.
    pub closed spec fn plan(&self) -> Seq<(Seq<char>, Seq<char>)> {
        intents(self.plan@)
    }

    /// How many renames of the plan were carried out.
    pub closed spec fn done(&self) -> nat {
        self.done as nat
    }

    /// No more renames were carried out than the plan holds.
    #[verifier::type_invariant]
    spec fn within_plan(self) -> bool {
        self.done <= self.plan@.len()
    }

    /// The run that carries out the renames of `plan`, first to last, of
    /// which none was carried out yet.
    pub fn over(plan: Vec<StagedRename>) -> (r: Self)
        ensures
            r.plan() == intents(plan@),
            r.done() == 0,
    {
        RenameRun { plan, done: 0 }
    }

    /// The renames that were carried out so far, in their order, as operations.
    pub fn carried_out(&self) -> (r: Vec<RenameOperation>)
        ensures
            operations(r@) == self.plan().subrange(0, self.done() as int),
    {
        proof {
            use_type_invariant(self);
        }
        let mut ops: Vec<RenameOperation> = Vec::new();
        let mut i: usize = 0;
        while i < self.done
            invariant
                i <= self.done <= self.plan@.len(),
                operations(ops@) == self.plan().subrange(0, i as int),
            decreases self.done - i,
        {
            let step = &self.plan[i];
            let ghost before = ops@;
            ops.push(
                RenameOperation {
                    original_path: step.original_path.clone(),
                    new_path: step.new_path.clone(),
                },
            );
            assert(operations(ops@) =~= operations(before).push(step@));
            assert(self.plan()[i as int] == step@);
            assert(operations(ops@) =~= self.plan().subrange(0, i + 1));
            i += 1;
        }
        ops
    }

    /// Whether every rename of the plan was carried out.
    pub fn is_complete(&self) -> (r: bool)
        ensures
            r == (self.done() == self.plan().len()),
    {
        self.done == self.plan.len()
    }

    /// The number of renames carried out so far, which is never more than
    /// the plan holds.
    pub fn completed(&self) -> (r: usize)
        ensures
            r == self.done(),
            r <= self.plan().len(),
    {
        proof {
            use_type_invariant(self);
        }
        self.done
    }

    /// The rename to carry out now: the first of the plan that was not yet
    /// carried out, or `None` when the run is complete.
    pub fn next_rename(&self) -> (r: Option<StagedRename>)
        ensures
            r is Some <==> self.done() < self.plan().len(),
            r matches Some(step) ==> step@ == self.plan()[self.done() as int],
    {
        if self.done < self.plan.len() {
            Some(self.plan[self.done].clone())
        } else {
            None
        }
    }

    /// Takes note of what came of the rename that `next_rename` named. After
    /// a success the run moves on to the next rename. After a failure the run
    /// stays where it is, and the error names the two paths and the cause.
    pub fn record(&mut self, outcome: RenameOutcome) -> (r: Result<(), MediaManagerError>)
        requires
            old(self).done() < old(self).plan().len(),
        ensures
            final(self).plan() == old(self).plan(),
            outcome is Renamed ==> r is Ok && final(self).done() == old(self).done() + 1,
            outcome matches RenameOutcome::Failed(cause) ==> final(self).done() == old(self).done()
                && (r matches Err(MediaManagerError::RenameFailed(from, to, why)) && (from@, to@)
                == old(self).plan()[old(self).done() as int] && why@ == cause@),
    {
        match outcome {
            RenameOutcome::Renamed => {
                let n = self.plan.len();
                assert(self.plan().len() == n);
                self.done = self.done + 1;
                Ok(())
            },
            RenameOutcome::Failed(cause) => {
                let step = &self.plan[self.done];
                Err(
                    MediaManagerError::RenameFailed(
                        step.original_path.clone(),
                        step.new_path.clone(),
                        cause,
                    ),
                )
            },
        }
    }
}

} // verus!
