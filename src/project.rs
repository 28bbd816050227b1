use vstd::prelude::*;
use crate::providers::LlmPatch;
use crate::workspace::apply_edits;

verus! {

/// Why an operation on the project (files, version control, test command) failed.
#[derive(Clone, Debug)]
pub struct ProjectError {
    pub message: String,
}

/// `rev` occurs at position `k - 1` of `h` and nowhere after it.
pub open spec fn latest_at(h: Seq<Seq<char>>, rev: Seq<char>, k: int) -> bool {
    &&& 0 < k <= h.len()
    &&& h[k - 1] == rev
    &&& forall|j: int| k <= j < h.len() ==> h[j] != rev
}

/// The tree of the current revision, or an empty tree before the first one.
pub open spec fn head_tree(snaps: Seq<Map<Seq<char>, Seq<char>>>) -> Map<Seq<char>, Seq<char>> {
    if snaps.len() > 0 {
        snaps.last()
    } else {
        Map::empty()
    }
}

/// The tree recorded when `paths` are staged on top of `base`: each path takes
/// its content in the working tree `files`, or is dropped where `files` lacks
/// it; every other path stays as in `base`.
pub open spec fn staged(
    base: Map<Seq<char>, Seq<char>>,
    files: Map<Seq<char>, Seq<char>>,
    paths: Seq<Seq<char>>,
) -> Map<Seq<char>, Seq<char>>
    decreases paths.len(),
{
    if paths.len() == 0 {
        base
    } else {
        let b = staged(base, files, paths.drop_last());
        let p = paths.last();
        if files.contains_key(p) {
            b.insert(p, files[p])
        } else {
            b.remove(p)
        }
    }
}

/// Views of a list of paths.
pub open spec fn path_views(paths: Seq<String>) -> Seq<Seq<char>> {
    paths.map_values(|p: String| p@)
}

/// `n`, raised by one when an operation failed.
pub open spec fn bump(n: nat, failed: bool) -> nat {
    if failed {
        n + 1
    } else {
        n
    }
}

/// The working project as the cycle controller sees it: a tree of files under
/// version control, plus a test command.
///
/// The spec functions describe the project; the contracts below say how each
/// operation moves them. The default bodies are placeholders for
/// implementations compiled without verification; generic callers never see
/// them.
pub trait Project {
    /// Revision ids, oldest first.
    closed spec fn history(&self) -> Seq<Seq<char>> {
        Seq::empty()
    }

    /// Commit messages, one per revision of `history`.
    closed spec fn messages(&self) -> Seq<Seq<char>> {
        Seq::empty()
    }

    /// Pass flag and output of each test run so far, oldest first.
    closed spec fn test_log(&self) -> Seq<(bool, Seq<char>)> {
        Seq::empty()
    }

    /// Whether a repository exists.
    closed spec fn has_repo(&self) -> bool {
        false
    }

    /// The working tree: file contents by project-relative path.
    closed spec fn files(&self) -> Map<Seq<char>, Seq<char>> {
        Map::empty()
    }

    /// The working tree recorded by each revision of `history`.
    closed spec fn snapshots(&self) -> Seq<Map<Seq<char>, Seq<char>>> {
        Seq::empty()
    }

    /// Branch names and the revision each points at.
    closed spec fn branches(&self) -> Map<Seq<char>, Seq<char>> {
        Map::empty()
    }

    /// How many operations have failed so far. Labelling a revision with a
    /// branch is best effort and not counted.
    closed spec fn failures(&self) -> nat {
        0
    }

    /// Makes sure a repository exists; does nothing if one already does.
    fn ensure_repo(&mut self) -> (r: Result<(), ProjectError>)
        ensures
            final(self).failures() == bump(old(self).failures(), r is Err),
            final(self).history() == old(self).history(),
            final(self).messages() == old(self).messages(),
            final(self).test_log() == old(self).test_log(),
            r is Ok ==> final(self).has_repo(),
            r is Ok && !old(self).has_repo() ==> final(self).history().len() == 0,
            old(self).has_repo() ==> r is Ok && (final(self).history() == old(self).history() && final(self).messages()
                == old(self).messages() && final(self).test_log() == old(self).test_log()
                && final(self).has_repo() == old(self).has_repo()),
            final(self).files() == old(self).files(),
            final(self).snapshots() == old(self).snapshots(),
            final(self).branches() == old(self).branches(),
    ;

    /// A size-bounded text of the project's sources for a model to read.
    fn collect_context(&mut self, max_bytes: usize) -> (r: Result<String, ProjectError>)
        ensures
            final(self).failures() == bump(old(self).failures(), r is Err),
            (final(self).history() == old(self).history() && final(self).messages()
                == old(self).messages() && final(self).test_log() == old(self).test_log()
                && final(self).has_repo() == old(self).has_repo()),
            final(self).files() == old(self).files(),
            final(self).snapshots() == old(self).snapshots(),
            final(self).branches() == old(self).branches(),
            r matches Ok(text) ==> vstd::utf8::encode_utf8(text@).len() <= max_bytes,
    ;

    /// Writes the edits of `patch` in order; the history is untouched.
    fn apply_patch(&mut self, patch: &LlmPatch) -> (r: Result<(), ProjectError>)
        ensures
            final(self).failures() == bump(old(self).failures(), r is Err),
            (final(self).history() == old(self).history() && final(self).messages()
                == old(self).messages() && final(self).test_log() == old(self).test_log()
                && final(self).has_repo() == old(self).has_repo()),
            r is Ok ==> final(self).files() == apply_edits(old(self).files(), patch.files@),
            final(self).snapshots() == old(self).snapshots(),
            final(self).branches() == old(self).branches(),
            r is Err ==> exists|i: int|
                0 <= i <= patch.files@.len() && final(self).files() == apply_edits(
                    old(self).files(),
                    patch.files@.take(i),
                ),
    ;

    /// Stages exactly `paths` and records a new revision with `message`, also
    /// when nothing changed.
    fn commit_paths(&mut self, paths: &Vec<String>, message: &str) -> (r: Result<(), ProjectError>)
        ensures
            final(self).failures() == bump(old(self).failures(), r is Err),
            r is Err ==> (final(self).history() == old(self).history() && final(self).messages()
                == old(self).messages() && final(self).test_log() == old(self).test_log()
                && final(self).has_repo() == old(self).has_repo()),
            r is Ok ==> exists|id: Seq<char>|
                !old(self).history().contains(id) && final(self).history()
                    == old(self).history().push(id),
            r is Ok ==> final(self).messages() == old(self).messages().push(message@),
            final(self).test_log() == old(self).test_log(),
            final(self).has_repo() == old(self).has_repo(),
            final(self).files() == old(self).files(),
            r is Ok ==> final(self).snapshots() == old(self).snapshots().push(
                staged(head_tree(old(self).snapshots()), old(self).files(), path_views(paths@)),
            ),
            r is Err ==> final(self).snapshots() == old(self).snapshots(),
            final(self).branches() == old(self).branches(),
    ;

    /// The id of the current revision.
    fn get_head_commit(&mut self) -> (r: Result<String, ProjectError>)
        ensures
            final(self).failures() == bump(old(self).failures(), r is Err),
            (final(self).history() == old(self).history() && final(self).messages()
                == old(self).messages() && final(self).test_log() == old(self).test_log()
                && final(self).has_repo() == old(self).has_repo()),
            r matches Ok(id) ==> old(self).history().len() > 0 && id@ == old(self).history().last(),
            final(self).files() == old(self).files(),
            final(self).snapshots() == old(self).snapshots(),
            final(self).branches() == old(self).branches(),
    ;

    /// Moves history and working tree back to `rev`.
    fn reset_hard_to(&mut self, rev: &str) -> (r: Result<(), ProjectError>)
        ensures
            final(self).failures() == bump(old(self).failures(), r is Err),
            r is Err ==> (final(self).history() == old(self).history() && final(self).messages()
                == old(self).messages() && final(self).test_log() == old(self).test_log()
                && final(self).has_repo() == old(self).has_repo()),
            r is Ok ==> exists|k: int|
                latest_at(old(self).history(), rev@, k) && final(self).history()
                    == old(self).history().take(k) && final(self).messages()
                    == old(self).messages().take(k) && final(self).snapshots()
                    == old(self).snapshots().take(k) && final(self).files()
                    == old(self).snapshots()[k - 1],
            final(self).test_log() == old(self).test_log(),
            final(self).has_repo() == old(self).has_repo(),
            r is Err ==> final(self).files() == old(self).files() && final(self).snapshots()
                == old(self).snapshots(),
            final(self).branches() == old(self).branches(),
    ;

    /// Undoes the most recent revision and its changes to the working tree.
    fn reset_hard_head_minus_one(&mut self) -> (r: Result<(), ProjectError>)
        ensures
            final(self).failures() == bump(old(self).failures(), r is Err),
            r is Err ==> (final(self).history() == old(self).history() && final(self).messages()
                == old(self).messages() && final(self).test_log() == old(self).test_log()
                && final(self).has_repo() == old(self).has_repo()),
            r is Ok ==> old(self).history().len() > 0 && final(self).history()
                == old(self).history().drop_last() && final(self).messages()
                == old(self).messages().drop_last(),
            final(self).test_log() == old(self).test_log(),
            final(self).has_repo() == old(self).has_repo(),
            r is Ok ==> old(self).history().len() > 1,
            r is Ok ==> old(self).snapshots().len() > 1 && final(self).snapshots() == old(
                self).snapshots().drop_last() && final(self).files() == old(self).snapshots()[old(
                self).snapshots().len() - 2],
            r is Err ==> final(self).files() == old(self).files() && final(self).snapshots()
                == old(self).snapshots(),
            final(self).branches() == old(self).branches(),
    ;

    /// Labels the current revision with a branch; the history is untouched.
    fn create_branch_at_head(&mut self, name: &str) -> (r: Result<(), ProjectError>)
        ensures
            final(self).failures() == old(self).failures(),
            (final(self).history() == old(self).history() && final(self).messages()
                == old(self).messages() && final(self).test_log() == old(self).test_log()
                && final(self).has_repo() == old(self).has_repo()),
            final(self).files() == old(self).files(),
            final(self).snapshots() == old(self).snapshots(),
            r is Ok ==> old(self).history().len() > 0 && final(self).branches() == old(
                self).branches().insert(name@, old(self).history().last()),
            r is Err ==> final(self).branches() == old(self).branches(),
            r is Ok ==> !old(self).branches().contains_key(name@),
    ;

    /// Runs the test command; `Ok((passed, output))` when it could be run.
    fn run_tests(&mut self, cmd: &str) -> (r: Result<(bool, String), ProjectError>)
        ensures
            final(self).failures() == bump(old(self).failures(), r is Err),
            r is Err ==> (final(self).history() == old(self).history() && final(self).messages()
                == old(self).messages() && final(self).test_log() == old(self).test_log()
                && final(self).has_repo() == old(self).has_repo()),
            r matches Ok((passed, output)) ==> final(self).test_log() == old(self).test_log().push(
                (passed, output@),
            ),
            final(self).history() == old(self).history(),
            final(self).messages() == old(self).messages(),
            final(self).has_repo() == old(self).has_repo(),
            final(self).files() == old(self).files(),
            final(self).snapshots() == old(self).snapshots(),
            final(self).branches() == old(self).branches(),
    ;
}

/// The project-relative paths an edit set touches, in order and with repeats.
pub fn touched_paths(patch: &LlmPatch) -> (r: Vec<String>)
    ensures
        r@.len() == patch.files@.len(),
        forall|i: int| 0 <= i < r@.len() ==> r@[i]@ == patch.files@[i].path@,
{
    let mut out: Vec<String> = Vec::new();
    let mut i: usize = 0;
    while i < patch.files.len()
        invariant
            i <= patch.files@.len(),
            out@.len() == i,
            forall|k: int| 0 <= k < i ==> out@[k]@ == patch.files@[k].path@,
        decreases patch.files@.len() - i,
    {
        out.push(patch.files[i].path.clone());
        i = i + 1;
    }
    out
}

} // verus!
