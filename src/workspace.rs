use vstd::prelude::*;
use crate::project::touched_paths;
use crate::providers::{EditMode, FileEdit, LlmPatch};
use crate::text::{join2, str_eq};

verus! {

/// The files after one edit: a rewrite replaces the content, an append adds to
/// the end of the current content (or of an empty file).
pub open spec fn apply_edit(files: Map<Seq<char>, Seq<char>>, e: FileEdit) -> Map<
    Seq<char>,
    Seq<char>,
> {
    match e.mode {
        EditMode::Rewrite => files.insert(e.path@, e.content@),
        EditMode::Append => files.insert(
            e.path@,
            if files.contains_key(e.path@) {
                files[e.path@] + e.content@
            } else {
                e.content@
            },
        ),
    }
}

/// The files after a sequence of edits, applied in order.
pub open spec fn apply_edits(files: Map<Seq<char>, Seq<char>>, edits: Seq<FileEdit>) -> Map<
    Seq<char>,
    Seq<char>,
>
    decreases edits.len(),
{
    if edits.len() == 0 {
        files
    } else {
        apply_edit(apply_edits(files, edits.drop_last()), edits.last())
    }
}

/// Content of `path` in a write log: the last entry written for it.
pub open spec fn lookup(log: Seq<(String, String)>, path: Seq<char>) -> Option<Seq<char>>
    decreases log.len(),
{
    if log.len() == 0 {
        None
    } else if log.last().0@ == path {
        Some(log.last().1@)
    } else {
        lookup(log.drop_last(), path)
    }
}

/// A file tree held in memory, as a log of whole-file writes.
pub struct MemTree {
    log: Vec<(String, String)>,
}

impl MemTree {
    /// The files and their contents.
    pub closed spec fn files(&self) -> Map<Seq<char>, Seq<char>> {
        Map::new(|p: Seq<char>| lookup(self.log@, p) is Some, |p: Seq<char>| lookup(self.log@, p)->0)
    }

    pub fn new() -> (r: Self)
        ensures
            r.files() == Map::<Seq<char>, Seq<char>>::empty(),
    {
        let r = MemTree { log: Vec::new() };
        assert(r.files() =~= Map::<Seq<char>, Seq<char>>::empty());
        r
    }

    /// The content of `path`, if the file exists.
    pub fn read(&self, path: &str) -> (r: Option<String>)
        ensures
            r is Some <==> self.files().contains_key(path@),
            r matches Some(c) ==> c@ == self.files()[path@],
    {
        let mut i: usize = self.log.len();
        assert(self.log@.take(i as int) =~= self.log@);
        while i > 0
            invariant
                i <= self.log@.len(),
                lookup(self.log@.take(i as int), path@) == lookup(self.log@, path@),
            decreases i,
        {
            assert(self.log@.take(i as int).drop_last() =~= self.log@.take(i - 1));
            if str_eq(self.log[i - 1].0.as_str(), path) {
                return Some(self.log[i - 1].1.clone());
            }
            i = i - 1;
        }
        None
    }

    fn write(&mut self, path: &String, content: String)
        ensures
            final(self).files() == old(self).files().insert(path@, content@),
    {
        let ghost before = self.log@;
        let ghost c = content@;
        self.log.push((path.clone(), content));
        assert(self.log@.drop_last() =~= before);
        assert forall|p: Seq<char>| lookup(self.log@, p) == if p == path@ {
            Some(c)
        } else {
            lookup(before, p)
        } by {}
        assert(self.files() =~= old(self).files().insert(path@, c));
    }

    /// Applies one edit.
    pub fn apply_edit(&mut self, e: &FileEdit)
        ensures
            final(self).files() == apply_edit(old(self).files(), *e),
    {
        match e.mode {
            EditMode::Rewrite => self.write(&e.path, e.content.clone()),
            EditMode::Append => {
                let content = match self.read(e.path.as_str()) {
                    Some(cur) => join2(cur.as_str(), e.content.as_str()),
                    None => e.content.clone(),
                };
                self.write(&e.path, content);
            },
        }
    }

    /// Applies the edits of `patch` in order and returns the paths they touched,
    /// in the same order, repeats included.
    pub fn apply_patch(&mut self, patch: &LlmPatch) -> (r: Vec<String>)
        ensures
            final(self).files() == apply_edits(old(self).files(), patch.files@),
            r@.len() == patch.files@.len(),
            forall|i: int| 0 <= i < r@.len() ==> r@[i]@ == patch.files@[i].path@,
    {
        let mut i: usize = 0;
        while i < patch.files.len()
            invariant
                i <= patch.files@.len(),
                self.files() == apply_edits(old(self).files(), patch.files@.take(i as int)),
            decreases patch.files@.len() - i,
        {
            assert(patch.files@.take(i + 1).drop_last() =~= patch.files@.take(i as int));
            self.apply_edit(&patch.files[i]);
            i = i + 1;
        }
        assert(patch.files@.take(i as int) =~= patch.files@);
        touched_paths(patch)
    }

    /// An independent copy of the tree.
    pub fn duplicate(&self) -> (r: Self)
        ensures
            r.files() == self.files(),
    {
        let mut log: Vec<(String, String)> = Vec::new();
        let mut i: usize = 0;
        while i < self.log.len()
            invariant
                i <= self.log@.len(),
                log@ == self.log@.take(i as int),
            decreases self.log@.len() - i,
        {
            let e = (self.log[i].0.clone(), self.log[i].1.clone());
            log.push(e);
            assert(log@ =~= self.log@.take(i + 1));
            i = i + 1;
        }
        assert(self.log@.take(i as int) =~= self.log@);
        MemTree { log }
    }
}

/// An edit set with no files leaves every file as it was.
pub proof fn law_empty_edit_set(files: Map<Seq<char>, Seq<char>>, edits: Seq<FileEdit>)
    requires
        edits.len() == 0,
    ensures
        apply_edits(files, edits) == files,
{
}

/// Reading a file back after a rewrite gives the edit's content; after an
/// append it gives the prior content (empty if none) followed by the edit's.
pub proof fn law_edit_then_read(files: Map<Seq<char>, Seq<char>>, e: FileEdit)
    ensures
        apply_edit(files, e).contains_key(e.path@),
        e.mode == EditMode::Rewrite ==> apply_edit(files, e)[e.path@] == e.content@,
        e.mode == EditMode::Append && files.contains_key(e.path@) ==> apply_edit(files, e)[e.path@]
            == files[e.path@] + e.content@,
        e.mode == EditMode::Append && !files.contains_key(e.path@) ==> apply_edit(files, e)[e.path@]
            == e.content@,
{
}

/// `t` is a prefix of `s`.
pub open spec fn has_prefix(s: Seq<char>, t: Seq<char>) -> bool {
    t.len() <= s.len() && s.subrange(0, t.len() as int) == t
}

/// `t` is a suffix of `s`.
pub open spec fn has_suffix(s: Seq<char>, t: Seq<char>) -> bool {
    t.len() <= s.len() && s.subrange(s.len() - t.len(), s.len() as int) == t
}

fn starts_with(s: &str, t: &str) -> (r: bool)
    ensures
        r == has_prefix(s@, t@),
{
    let n = s.unicode_len();
    let m = t.unicode_len();
    if m > n {
        return false;
    }
    let mut i: usize = 0;
    while i < m
        invariant
            n == s@.len(),
            m == t@.len(),
            m <= n,
            i <= m,
            forall|k: int| 0 <= k < i ==> s@[k] == t@[k],
        decreases m - i,
    {
        if s.get_char(i) != t.get_char(i) {
            assert(s@.subrange(0, m as int)[i as int] != t@[i as int]);
            return false;
        }
        i = i + 1;
    }
    assert(s@.subrange(0, m as int) =~= t@);
    true
}

fn ends_with(s: &str, t: &str) -> (r: bool)
    ensures
        r == has_suffix(s@, t@),
{
    let n = s.unicode_len();
    let m = t.unicode_len();
    if m > n {
        return false;
    }
    let d = n - m;
    let mut i: usize = 0;
    while i < m
        invariant
            n == s@.len(),
            m == t@.len(),
            d == n - m,
            i <= m,
            forall|k: int| 0 <= k < i ==> s@[d + k] == t@[k],
        decreases m - i,
    {
        if s.get_char(d + i) != t.get_char(i) {
            assert(s@.subrange(d as int, n as int)[i as int] != t@[i as int]);
            return false;
        }
        i = i + 1;
    }
    assert(s@.subrange(d as int, n as int) =~= t@);
    true
}

/// Whether a project-relative file belongs in the context given to a model:
/// Rust sources, manifests, Markdown, READMEs, and anything under the source,
/// test, bench and example directories.
pub open spec fn context_wanted(rel: Seq<char>) -> bool {
    has_suffix(rel, ".rs"@) || has_suffix(rel, "Cargo.toml"@) || has_prefix(rel, "tests/"@)
        || has_prefix(rel, "src/"@) || has_prefix(rel, "benches/"@) || has_prefix(rel, "examples/"@)
        || has_prefix(rel, "README"@) || has_suffix(rel, ".md"@)
}

/// Decides `context_wanted` for a path.
pub fn context_includes(rel: &str) -> (r: bool)
    ensures
        r == context_wanted(rel@),
{
    ends_with(rel, ".rs") || ends_with(rel, "Cargo.toml") || starts_with(rel, "tests/")
        || starts_with(rel, "src/") || starts_with(rel, "benches/") || starts_with(rel, "examples/")
        || starts_with(rel, "README") || ends_with(rel, ".md")
}

/// Whether a directory is skipped when walking the project for context.
pub fn context_skips_dir(name: &str) -> (r: bool)
    ensures
        r == (name@ == ".git"@ || name@ == "target"@ || name@ == "node_modules"@),
{
    str_eq(name, ".git") || str_eq(name, "target") || str_eq(name, "node_modules")
}

/// The header that introduces a file in the context text.
pub open spec fn file_header(rel: Seq<char>) -> Seq<char> {
    "\n===== FILE: "@ + rel + " =====\n"@
}

/// Bytes that `file_header` adds around the path.
pub const HEADER_BYTES: usize = 20;

/// The context text for a model, filled file by file under a byte budget.
pub struct ContextBuilder {
    text: String,
    used: usize,
    max: usize,
    closed: bool,
}

impl ContextBuilder {
    pub closed spec fn text_of(&self) -> Seq<char> {
        self.text@
    }

    pub closed spec fn used_of(&self) -> nat {
        self.used as nat
    }

    pub closed spec fn max_of(&self) -> nat {
        self.max as nat
    }

    /// No file is taken any more once one did not fit.
    pub closed spec fn is_closed(&self) -> bool {
        self.closed
    }

    pub fn new(max_bytes: usize) -> (r: Self)
        ensures
            r.text_of() == Seq::<char>::empty(),
            r.used_of() == 0,
            r.max_of() == max_bytes,
            !r.is_closed(),
    {
        ContextBuilder { text: String::new(), used: 0, max: max_bytes, closed: false }
    }

    /// Offers a file with its path and contents. It is added, behind its
    /// header, when the bytes used so far plus the header and the contents stay
    /// within the budget; otherwise the builder closes and takes no more files.
    /// Returns whether the file was added.
    pub fn offer(&mut self, rel: &str, contents: &str) -> (r: bool)
        ensures
            r <==> !old(self).is_closed() && old(self).used_of() + HEADER_BYTES + rel.len()
                + contents.len() <= old(self).max_of(),
            r ==> final(self).text_of() == old(self).text_of() + file_header(rel@) + contents@
                && final(self).used_of() == old(self).used_of() + HEADER_BYTES + rel.len()
                + contents.len() && !final(self).is_closed(),
            !r ==> final(self).text_of() == old(self).text_of() && final(self).used_of()
                == old(self).used_of() && final(self).is_closed(),
            final(self).max_of() == old(self).max_of(),
    {
        if self.closed || self.used > self.max {
            self.closed = true;
            return false;
        }
        let room = self.max - self.used;
        let rl = rel.len();
        let cl = contents.len();
        if rl > room || HEADER_BYTES > room - rl || cl > room - rl - HEADER_BYTES {
            self.closed = true;
            return false;
        }
        self.text.append("\n===== FILE: ");
        self.text.append(rel);
        self.text.append(" =====\n");
        self.text.append(contents);
        self.used = self.used + HEADER_BYTES + rl + cl;
        true
    }

    /// The text gathered so far.
    pub fn text(&self) -> (r: String)
        ensures
            r@ == self.text_of(),
    {
        self.text.clone()
    }
}

} // verus!
