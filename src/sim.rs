use vstd::prelude::*;
use crate::project::{head_tree, latest_at, path_views, staged, Project, ProjectError};
use crate::providers::{EditMode, FileEdit, LlmPatch};
use crate::text::{join2, str_eq, usize_to_decimal};
use crate::workspace::MemTree;

verus! {

/// A commit of the simulated history.
pub struct Revision {
    pub id: String,
    /// The file tree this revision records.
    pub tree: MemTree,
    pub message: String,
}

/// Repository state after an `ensure_repo`: it exists, and it was initialized
/// once more only if it did not exist before.
pub open spec fn init_effect(ready: bool, inits: nat) -> (bool, nat) {
    (true, if ready { inits } else { inits + 1 })
}

/// Making sure of the repository twice has the effect of doing it once: it
/// exists, and it was initialized at most once by the two calls together.
pub proof fn law_ensure_repo_idempotent(ready: bool, inits: nat)
    ensures
        init_effect(init_effect(ready, inits).0, init_effect(ready, inits).1) == init_effect(
            ready,
            inits,
        ),
        init_effect(ready, inits).1 <= inits + 1,
{
}

/// A project held entirely in memory: a file tree, a linear history whose
/// revisions remember the tree, branches, and a scripted sequence of test
/// outcomes (every run past the end of the script passes).
pub struct SimProject {
    tree: MemTree,
    ready: bool,
    inits: usize,
    revisions: Vec<Revision>,
    branches: Vec<(String, String)>,
    test_script: Vec<bool>,
    tests_run: usize,
    failed: Ghost<nat>,
}

/// What a simulated test run prints.
pub open spec fn run_output(passed: bool) -> Seq<char> {
    if passed {
        "test result: ok"@
    } else {
        "test result: FAILED"@
    }
}

fn err(msg: &str) -> (r: ProjectError)
    ensures
        r.message@ == msg@,
{
    ProjectError { message: String::from_str(msg) }
}

/// The branches recorded in `pairs`, later entries taking precedence.
pub open spec fn branch_map(pairs: Seq<(String, String)>) -> Map<Seq<char>, Seq<char>>
    decreases pairs.len(),
{
    if pairs.len() == 0 {
        Map::empty()
    } else {
        branch_map(pairs.drop_last()).insert(pairs.last().0@, pairs.last().1@)
    }
}

proof fn lemma_branch_map_keys(pairs: Seq<(String, String)>, k: Seq<char>)
    ensures
        branch_map(pairs).contains_key(k) ==> exists|i: int| 0 <= i < pairs.len() && pairs[i].0@ == k,
    decreases pairs.len(),
{
    if pairs.len() > 0 {
        lemma_branch_map_keys(pairs.drop_last(), k);
        if branch_map(pairs.drop_last()).contains_key(k) {
            let i = choose|i: int| 0 <= i < pairs.drop_last().len() && pairs.drop_last()[i].0@ == k;
            assert(pairs[i] == pairs.drop_last()[i]);
        }
    }
}

impl SimProject {
    pub closed spec fn sim_history(&self) -> Seq<Seq<char>> {
        self.revisions@.map_values(|r: Revision| r.id@)
    }

    pub closed spec fn sim_test_log(&self) -> Seq<(bool, Seq<char>)> {
        Seq::new(
            self.tests_run as nat,
            |i: int|
                {
                    let passed = if i < self.test_script@.len() {
                        self.test_script@[i]
                    } else {
                        true
                    };
                    (passed, run_output(passed))
                },
        )
    }

    pub closed spec fn sim_snapshots(&self) -> Seq<Map<Seq<char>, Seq<char>>> {
        self.revisions@.map_values(|r: Revision| r.tree.files())
    }

    pub closed spec fn sim_messages(&self) -> Seq<Seq<char>> {
        self.revisions@.map_values(|r: Revision| r.message@)
    }

    pub closed spec fn branch_pairs(&self) -> Seq<(String, String)> {
        self.branches@
    }

    /// Branch names with the revision each points at.
    pub closed spec fn sim_branches(&self) -> Seq<(Seq<char>, Seq<char>)> {
        self.branches@.map_values(|b: (String, String)| (b.0@, b.1@))
    }

    /// How many operations have failed.
    pub closed spec fn fail_count(&self) -> nat {
        self.failed@
    }

    pub closed spec fn repo_ready(&self) -> bool {
        self.ready
    }

    pub closed spec fn init_count(&self) -> nat {
        self.inits as nat
    }

    pub closed spec fn sim_files(&self) -> Map<Seq<char>, Seq<char>> {
        self.tree.files()
    }

    /// An empty project with no repository; test runs follow `test_script`.
    pub fn new(test_script: Vec<bool>) -> (r: Self)
        ensures
            r.sim_history().len() == 0,
            r.sim_messages().len() == 0,
            r.sim_snapshots().len() == 0,
            !r.repo_ready(),
            r.init_count() == 0,
            r.sim_files() == Map::<Seq<char>, Seq<char>>::empty(),
    {
        let r = SimProject {
            tree: MemTree::new(),
            ready: false,
            inits: 0,
            revisions: Vec::new(),
            branches: Vec::new(),
            test_script,
            tests_run: 0,
            failed: Ghost(0),
        };
        assert(r.sim_history() =~= Seq::<Seq<char>>::empty());
        r
    }

    /// Creates the repository unless it exists.
    pub fn init_repo(&mut self)
        requires
            old(self).repo_ready() || old(self).init_count() < usize::MAX,
        ensures
            (final(self).repo_ready(), final(self).init_count()) == init_effect(
                old(self).repo_ready(),
                old(self).init_count(),
            ),
            final(self).sim_history() == old(self).sim_history(),
            final(self).sim_test_log() == old(self).sim_test_log(),
            final(self).sim_messages() == old(self).sim_messages(),
            final(self).fail_count() == old(self).fail_count(),
            final(self).sim_snapshots() == old(self).sim_snapshots(),
            final(self).branch_pairs() == old(self).branch_pairs(),
            final(self).sim_files() == old(self).sim_files(),
    {
        if !self.ready {
            self.ready = true;
            self.inits = self.inits + 1;
        }
    }

    /// Number of revisions.
    pub fn revision_count(&self) -> (r: usize)
        ensures
            r == self.sim_history().len(),
    {
        self.revisions.len()
    }

    /// The revision at `index`, counted from the first.
    pub fn revision(&self, index: usize) -> (r: Option<Revision>)
        ensures
            r is Some <==> index < self.sim_history().len(),
            r matches Some(v) ==> v.id@ == self.sim_history()[index as int],
    {
        if index < self.revisions.len() {
            let v = &self.revisions[index];
            Some(Revision { id: v.id.clone(), tree: v.tree.duplicate(), message: v.message.clone() })
        } else {
            None
        }
    }

    /// The revision a branch points at.
    pub fn branch_target(&self, name: &str) -> (r: Option<String>)
        ensures
            r is None <==> forall|i: int|
                0 <= i < self.sim_branches().len() ==> self.sim_branches()[i].0 != name@,
            r matches Some(t) ==> exists|i: int|
                0 <= i < self.sim_branches().len() && self.sim_branches()[i] == (name@, t@),
    {
        let mut i: usize = 0;
        while i < self.branches.len()
            invariant
                i <= self.branches@.len(),
                forall|j: int| 0 <= j < i ==> self.sim_branches()[j].0 != name@,
            decreases self.branches@.len() - i,
        {
            if str_eq(self.branches[i].0.as_str(), name) {
                let t = self.branches[i].1.clone();
                assert(self.sim_branches()[i as int] == (name@, t@));
                return Some(t);
            }
            i = i + 1;
        }
        None
    }

    /// Number of branches.
    pub fn branch_count(&self) -> (r: usize)
        ensures
            r == self.sim_branches().len(),
    {
        self.branches.len()
    }

    /// The content of a file of the working tree.
    pub fn read(&self, path: &str) -> (r: Option<String>)
        ensures
            r is Some <==> self.sim_files().contains_key(path@),
            r matches Some(c) ==> c@ == self.sim_files()[path@],
    {
        self.tree.read(path)
    }

    /// How often the repository was initialized.
    pub fn inits(&self) -> (r: usize)
        ensures
            r == self.init_count(),
    {
        self.inits
    }

    fn fail(&mut self, msg: &str) -> (r: ProjectError)
        ensures
            r.message@ == msg@,
            final(self).failed@ == old(self).failed@ + 1,
            final(self).tree == old(self).tree,
            final(self).ready == old(self).ready,
            final(self).inits == old(self).inits,
            final(self).revisions == old(self).revisions,
            final(self).branches == old(self).branches,
            final(self).test_script == old(self).test_script,
            final(self).tests_run == old(self).tests_run,
    {
        proof {
            self.failed@ = self.failed@ + 1;
        }
        err(msg)
    }

    fn last_index_of(&self, rev: &str) -> (r: Option<usize>)
        ensures
            r matches Some(i) ==> i < self.revisions@.len() && latest_at(
                self.sim_history(),
                rev@,
                i + 1,
            ),
    {
        let mut i: usize = self.revisions.len();
        while i > 0
            invariant
                i <= self.revisions@.len(),
                forall|j: int| i <= j < self.revisions@.len() ==> self.sim_history()[j] != rev@,
            decreases i,
        {
            if str_eq(self.revisions[i - 1].id.as_str(), rev) {
                return Some(i - 1);
            }
            i = i - 1;
        }
        None
    }

    fn contains_id(&self, id: &str) -> (r: bool)
        ensures
            r == self.sim_history().contains(id@),
    {
        let mut i: usize = 0;
        while i < self.revisions.len()
            invariant
                i <= self.revisions@.len(),
                forall|j: int| 0 <= j < i ==> self.sim_history()[j] != id@,
            decreases self.revisions@.len() - i,
        {
            if str_eq(self.revisions[i].id.as_str(), id) {
                assert(self.sim_history()[i as int] == id@);
                return true;
            }
            i = i + 1;
        }
        false
    }
}

impl Project for SimProject {
    open spec fn history(&self) -> Seq<Seq<char>> {
        self.sim_history()
    }

    open spec fn messages(&self) -> Seq<Seq<char>> {
        self.sim_messages()
    }

    open spec fn test_log(&self) -> Seq<(bool, Seq<char>)> {
        self.sim_test_log()
    }

    open spec fn files(&self) -> Map<Seq<char>, Seq<char>> {
        self.sim_files()
    }

    open spec fn snapshots(&self) -> Seq<Map<Seq<char>, Seq<char>>> {
        self.sim_snapshots()
    }

    closed spec fn branches(&self) -> Map<Seq<char>, Seq<char>> {
        branch_map(self.branch_pairs())
    }

    closed spec fn has_repo(&self) -> bool {
        self.ready
    }

    closed spec fn failures(&self) -> nat {
        self.failed@
    }

    fn ensure_repo(&mut self) -> (r: Result<(), ProjectError>) {
        if !self.ready && self.inits == usize::MAX {
            return Err(self.fail("repository initialized too often"));
        }
        if !self.ready && self.revisions.len() > 0 {
            return Err(self.fail("revisions exist outside a repository"));
        }
        self.init_repo();
        Ok(())
    }

    fn collect_context(&mut self, max_bytes: usize) -> (r: Result<String, ProjectError>) {
        Ok(String::new())
    }

    fn apply_patch(&mut self, patch: &LlmPatch) -> (r: Result<(), ProjectError>) {
        let _touched = self.tree.apply_patch(patch);
        Ok(())
    }

    fn commit_paths(&mut self, paths: &Vec<String>, message: &str) -> (r: Result<(), ProjectError>) {
        if !self.ready {
            return Err(self.fail("not a repository"));
        }
        if self.revisions.len() == usize::MAX {
            return Err(self.fail("history is full"));
        }
        let num = usize_to_decimal(self.revisions.len() + 1);
        let id = join2("r", num.as_str());
        if self.contains_id(id.as_str()) {
            return Err(self.fail("revision id already taken"));
        }
        let ghost new_id = id@;
        let ghost pv = path_views(paths@);
        let ghost head = head_tree(self.sim_snapshots());
        let n = self.revisions.len();
        let mut tree = if n > 0 {
            self.revisions[n - 1].tree.duplicate()
        } else {
            MemTree::new()
        };
        assert(pv.take(0) =~= Seq::<Seq<char>>::empty());
        let mut i: usize = 0;
        while i < paths.len()
            invariant
                i <= paths@.len(),
                pv == path_views(paths@),
                self == old(self),
                head == head_tree(self.sim_snapshots()),
                tree.files() == staged(head, self.sim_files(), pv.take(i as int)),
            decreases paths@.len() - i,
        {
            assert(pv.take(i + 1).drop_last() =~= pv.take(i as int));
            match self.tree.read(paths[i].as_str()) {
                Some(content) => {
                    let edit = FileEdit {
                        path: paths[i].clone(),
                        mode: EditMode::Rewrite,
                        content,
                    };
                    tree.apply_edit(&edit);
                },
                None => return Err(self.fail("pathspec did not match any file")),
            }
            i = i + 1;
        }
        assert(pv.take(i as int) =~= pv);
        let message = String::from_str(message);
        let ghost m = message@;
        self.revisions.push(Revision { id, tree, message });
        assert(self.sim_snapshots() =~= old(self).sim_snapshots().push(
            staged(head, old(self).sim_files(), pv),
        ));
        assert(self.sim_history() =~= old(self).sim_history().push(new_id));
        assert(self.sim_messages() =~= old(self).sim_messages().push(m));
        assert(!old(self).history().contains(new_id) && self.history() == old(self).history().push(
            new_id,
        ));
        Ok(())
    }

    fn get_head_commit(&mut self) -> (r: Result<String, ProjectError>) {
        let n = self.revisions.len();
        if n == 0 {
            return Err(self.fail("no commits yet"));
        }
        Ok(self.revisions[n - 1].id.clone())
    }

    fn reset_hard_to(&mut self, rev: &str) -> (r: Result<(), ProjectError>) {
        match self.last_index_of(rev) {
            None => Err(self.fail("unknown revision")),
            Some(i) => {
                let n = self.revisions.len();
                assert(i < n);
                self.tree = self.revisions[i].tree.duplicate();
                self.revisions.truncate(i + 1);
                assert(self.sim_snapshots() =~= old(self).sim_snapshots().take(i + 1));
                assert(self.sim_history() =~= old(self).sim_history().take(i + 1));
                assert(self.sim_messages() =~= old(self).sim_messages().take(i + 1));
                assert(latest_at(old(self).history(), rev@, i + 1) && self.history()
                    == old(self).history().take(i + 1) && self.messages()
                    == old(self).messages().take(i + 1) && self.snapshots()
                    == old(self).snapshots().take(i + 1) && self.files()
                    == old(self).snapshots()[i as int]);
                Ok(())
            },
        }
    }

    fn reset_hard_head_minus_one(&mut self) -> (r: Result<(), ProjectError>) {
        let n = self.revisions.len();
        if n < 2 {
            return Err(self.fail("no parent revision"));
        }
        self.tree = self.revisions[n - 2].tree.duplicate();
        self.revisions.truncate(n - 1);
        assert(self.sim_snapshots() =~= old(self).sim_snapshots().drop_last());
        assert(self.sim_history() =~= old(self).sim_history().drop_last());
        assert(self.sim_messages() =~= old(self).sim_messages().drop_last());
        Ok(())
    }

    fn create_branch_at_head(&mut self, name: &str) -> (r: Result<(), ProjectError>) {
        let n = self.revisions.len();
        if n == 0 {
            return Err(err("no commits yet"));
        }
        if self.branch_target(name).is_some() {
            return Err(err("branch already exists"));
        }
        proof {
            lemma_branch_map_keys(self.branch_pairs(), name@);
            assert forall|i: int| 0 <= i < self.branch_pairs().len() implies self.branch_pairs()[i].0@
                != name@ by {
                assert(self.sim_branches()[i].0 == self.branch_pairs()[i].0@);
            }
        }
        let head = self.revisions[n - 1].id.clone();
        let ghost before = self.branches@;
        self.branches.push((String::from_str(name), head));
        assert(self.branches@.drop_last() =~= before);
        Ok(())
    }

    fn run_tests(&mut self, cmd: &str) -> (r: Result<(bool, String), ProjectError>) {
        if self.tests_run == usize::MAX {
            return Err(self.fail("too many test runs"));
        }
        let passed = if self.tests_run < self.test_script.len() {
            self.test_script[self.tests_run]
        } else {
            true
        };
        self.tests_run = self.tests_run + 1;
        proof {
            reveal_strlit("test result: ok");
            reveal_strlit("test result: FAILED");
        }
        let output = if passed {
            String::from_str("test result: ok")
        } else {
            String::from_str("test result: FAILED")
        };
        assert(self.sim_test_log() =~= old(self).sim_test_log().push((passed, output@)));
        Ok((passed, output))
    }
}

} // verus!
