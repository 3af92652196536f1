//! The cleanup stage: which files are deleted, in which order, and what
//! is announced instead when deletion is suppressed.

use vstd::prelude::*;

use crate::config::{profdata_file, spec_profdata_file};
use crate::invocation::{join_with, spec_join};
use crate::numfmt::{spec_udec, u64_to_decimal};

verus! {

/// The files one successful run deletes: every fragment in discovery
/// order, then the consolidated database.
pub open spec fn spec_deletion_set(fragments: Seq<Seq<char>>) -> Seq<Seq<char>> {
    fragments + seq![spec_profdata_file()]
}

/// One pass over the deletion set. The caller asks for the next file,
/// deletes it, and reports back; the first failure ends the pass, so at
/// every point the files handed out are exactly a prefix of the set.
pub struct CleanupRun {
    /// The deletion set, fixed when the run is built.
    pub files: Vec<String>,
    /// How many files have been handed out so far.
    pub next: usize,
}

impl CleanupRun {
    /// The deletion set this run walks.
    pub open spec fn spec_files(&self) -> Seq<Seq<char>> {
        self.files.deep_view()
    }

    /// The position never runs past the end of the set.
    pub open spec fn wf(&self) -> bool {
        self.next <= self.files@.len()
    }

    /// The files already handed out for deletion, in order.
    pub open spec fn spec_issued(&self) -> Seq<Seq<char>> {
        self.files.deep_view().take(self.next as int)
    }

    /// The files not handed out yet, in order.
    pub open spec fn spec_remaining(&self) -> Seq<Seq<char>> {
        self.files.deep_view().skip(self.next as int)
    }

    /// Builds the run over the full deletion set: the fragments, then
    /// the database. Nothing has been handed out yet.
    pub fn new(fragments: Vec<String>) -> (r: Self)
        ensures
            r.wf(),
            r.spec_files() == spec_deletion_set(fragments.deep_view()),
            r.next == 0,
    {
        let mut files = fragments;
        let ghost frag_view = files.deep_view();
        files.push(profdata_file());
        proof {
            assert(files.deep_view() =~= spec_deletion_set(frag_view));
        }
        CleanupRun { files, next: 0 }
    }

    /// The next file to delete, or nothing when the set is exhausted.
    pub fn next_file(&self) -> (r: Option<&String>)
        requires
            self.wf(),
        ensures
            r is Some <==> self.spec_remaining().len() > 0,
            r matches Some(f) ==> f@ == self.spec_remaining()[0],
    {
        if self.next < self.files.len() {
            let r = Some(&self.files[self.next]);
            proof {
                assert(self.spec_remaining()[0] == self.files.deep_view()[self.next as int]);
            }
            r
        } else {
            None
        }
    }

    /// Records that the file just handed out was deleted, and moves on.
    pub fn advance(&mut self)
        requires
            old(self).wf(),
            old(self).spec_remaining().len() > 0,
        ensures
            final(self).wf(),
            final(self).spec_files() == old(self).spec_files(),
            final(self).next == old(self).next + 1,
            final(self).spec_issued() == old(self).spec_issued().push(
                old(self).spec_remaining()[0],
            ),
            final(self).spec_remaining() == old(self).spec_remaining().drop_first(),
    {
        let n = self.files.len();
        proof {
            assert(old(self).spec_remaining().len() == n - self.next);
        }
        self.next = self.next + 1;
        proof {
            assert(self.spec_issued() =~= old(self).spec_issued().push(
                old(self).spec_remaining()[0],
            ));
            assert(self.spec_remaining() =~= old(self).spec_remaining().drop_first());
        }
    }
}

/// However far a run came, the files handed out and the files left are
/// together the whole deletion set, in its order: stopping at the first
/// failure leaves exactly the set's tail untouched.
pub proof fn lemma_cleanup_split(run: CleanupRun)
    requires
        run.wf(),
    ensures
        run.spec_issued() + run.spec_remaining() == run.spec_files(),
        run.spec_issued().len() == run.next,
        forall|j: int|
            run.next <= j < run.spec_files().len() ==> run.spec_remaining()[j - run.next]
                == run.spec_files()[j],
{
    assert(run.spec_issued() + run.spec_remaining() =~= run.spec_files());
}

/// The cleanup stage's status line: the count of files about to be
/// deleted, or, when deletion is suppressed, the files that stay.
pub open spec fn spec_cleanup_message(no_delete: bool, files: Seq<Seq<char>>) -> Seq<char> {
    if no_delete {
        "--no-delete set, not deleting "@ + spec_join(files, ", "@)
    } else {
        "Deleting "@ + spec_udec(files.len()) + " coverage files"@
    }
}

/// Builds the cleanup stage's status line.
pub fn cleanup_message(no_delete: bool, files: &Vec<String>) -> (r: String)
    ensures
        r@ == spec_cleanup_message(no_delete, files.deep_view()),
{
    if no_delete {
        "--no-delete set, not deleting ".to_owned().concat(join_with(files, ", ").as_str())
    } else {
        let count = u64_to_decimal(files.len() as u64);
        "Deleting ".to_owned().concat(count.as_str()).concat(" coverage files")
    }
}

} // verus!
