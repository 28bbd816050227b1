use vstd::prelude::*;
use crate::text::join2;

verus! {

/// Whether the project still needs `git init`: only when no repository marker exists.
pub fn needs_init(marker_exists: bool) -> (r: bool)
    ensures
        r == !marker_exists,
{
    !marker_exists
}

fn args_of(items: &[&str]) -> (r: Vec<String>)
    ensures
        r@.len() == items@.len(),
        forall|i: int| 0 <= i < r@.len() ==> r@[i]@ == items@[i]@,
{
    let mut out: Vec<String> = Vec::new();
    let mut i: usize = 0;
    while i < items.len()
        invariant
            i <= items@.len(),
            out@.len() == i,
            forall|k: int| 0 <= k < i ==> out@[k]@ == items@[k]@,
        decreases items@.len() - i,
    {
        out.push(String::from_str(items[i]));
        i = i + 1;
    }
    out
}

/// One git invocation and the label its failure is reported under.
pub struct GitStep {
    pub args: Vec<String>,
    pub label: String,
}

fn step(args: Vec<String>, label: &str) -> (r: GitStep)
    ensures
        r.args == args,
        r.label@ == label@,
{
    GitStep { args, label: String::from_str(label) }
}

/// `view` of each argument of a command line.
pub open spec fn arg_views(v: Seq<String>) -> Seq<Seq<char>> {
    v.map_values(|s: String| s@)
}

/// The git invocations that commit `paths` with `message`: staging of exactly
/// those paths (skipped when there are none), reported as `git add`, then a
/// commit that may be empty, reported as `git commit`.
pub fn commit_commands(paths: &Vec<String>, message: &str) -> (r: Vec<GitStep>)
    ensures
        paths@.len() == 0 ==> r@.len() == 1,
        paths@.len() > 0 ==> r@.len() == 2 && arg_views(r@[0].args@) == seq!["add"@, "--"@]
            + arg_views(paths@) && r@[0].label@ == "git add"@,
        arg_views(r@.last().args@) == seq!["commit"@, "--allow-empty"@, "-m"@, message@],
        r@.last().label@ == "git commit"@,
{
    let mut cmds: Vec<GitStep> = Vec::new();
    if paths.len() > 0 {
        let mut add = args_of(&["add", "--"]);
        let mut i: usize = 0;
        while i < paths.len()
            invariant
                i <= paths@.len(),
                arg_views(add@) == seq!["add"@, "--"@] + arg_views(paths@.take(i as int)),
            decreases paths@.len() - i,
        {
            let ghost before = add@;
            add.push(paths[i].clone());
            assert(paths@.take(i + 1) =~= paths@.take(i as int).push(paths@[i as int]));
            assert(arg_views(add@) =~= arg_views(before).push(paths@[i as int]@));
            i = i + 1;
        }
        assert(paths@.take(i as int) =~= paths@);
        cmds.push(step(add, "git add"));
    }
    let commit = args_of(&["commit", "--allow-empty", "-m", message]);
    assert(arg_views(commit@) =~= seq!["commit"@, "--allow-empty"@, "-m"@, message@]);
    cmds.push(step(commit, "git commit"));
    cmds
}

/// `git init`, reported as `git init`.
pub fn init_command() -> (r: GitStep)
    ensures
        arg_views(r.args@) == seq!["init"@],
        r.label@ == "git init"@,
{
    let a = args_of(&["init"]);
    assert(arg_views(a@) =~= seq!["init"@]);
    step(a, "git init")
}

/// `git rev-parse HEAD`, reported under the same words.
pub fn head_command() -> (r: GitStep)
    ensures
        arg_views(r.args@) == seq!["rev-parse"@, "HEAD"@],
        r.label@ == "git rev-parse HEAD"@,
{
    let a = args_of(&["rev-parse", "HEAD"]);
    assert(arg_views(a@) =~= seq!["rev-parse"@, "HEAD"@]);
    step(a, "git rev-parse HEAD")
}

/// `git reset --hard <target>`, reported under the same words.
pub fn reset_command(target: &str) -> (r: GitStep)
    ensures
        arg_views(r.args@) == seq!["reset"@, "--hard"@, target@],
        r.label@ == "git reset --hard "@ + target@,
{
    let a = args_of(&["reset", "--hard", target]);
    assert(arg_views(a@) =~= seq!["reset"@, "--hard"@, target@]);
    GitStep { args: a, label: join2("git reset --hard ", target) }
}

/// `git reset --hard HEAD~1`: undoes the last revision; reported as `git reset`.
pub fn reset_one_command() -> (r: GitStep)
    ensures
        arg_views(r.args@) == seq!["reset"@, "--hard"@, "HEAD~1"@],
        r.label@ == "git reset"@,
{
    let a = args_of(&["reset", "--hard", "HEAD~1"]);
    assert(arg_views(a@) =~= seq!["reset"@, "--hard"@, "HEAD~1"@]);
    step(a, "git reset")
}

/// `git branch <name>`, reported under the same words.
pub fn branch_command(name: &str) -> (r: GitStep)
    ensures
        arg_views(r.args@) == seq!["branch"@, name@],
        r.label@ == "git branch "@ + name@,
{
    let a = args_of(&["branch", name]);
    assert(arg_views(a@) =~= seq!["branch"@, name@]);
    GitStep { args: a, label: join2("git branch ", name) }
}

/// The characters with the Unicode `White_Space` property, those
/// `char::is_whitespace` accepts.
pub open spec fn is_white_space(c: char) -> bool {
    ('\u{9}' <= c && c <= '\u{d}') || c == ' ' || c == '\u{85}' || c == '\u{a0}' || c
        == '\u{1680}' || ('\u{2000}' <= c && c <= '\u{200a}') || c == '\u{2028}' || c
        == '\u{2029}' || c == '\u{202f}' || c == '\u{205f}' || c == '\u{3000}'
}

/// `s` without its leading white space.
pub open spec fn trim_start(s: Seq<char>) -> Seq<char>
    decreases s.len(),
{
    if s.len() > 0 && is_white_space(s[0]) {
        trim_start(s.drop_first())
    } else {
        s
    }
}

/// `s` without its trailing white space.
pub open spec fn trim_end(s: Seq<char>) -> Seq<char>
    decreases s.len(),
{
    if s.len() > 0 && is_white_space(s.last()) {
        trim_end(s.drop_last())
    } else {
        s
    }
}

fn white_space(c: char) -> (r: bool)
    ensures
        r == is_white_space(c),
{
    ('\u{9}' <= c && c <= '\u{d}') || c == ' ' || c == '\u{85}' || c == '\u{a0}' || c
        == '\u{1680}' || ('\u{2000}' <= c && c <= '\u{200a}') || c == '\u{2028}' || c
        == '\u{2029}' || c == '\u{202f}' || c == '\u{205f}' || c == '\u{3000}'
}

/// The revision id in the output of `git rev-parse HEAD`: the output without
/// leading and trailing white space.
pub fn head_from_output(output: &str) -> (r: String)
    ensures
        r@ == trim_end(trim_start(output@)),
{
    let n = output.unicode_len();
    let mut i: usize = 0;
    assert(output@.subrange(0, n as int) =~= output@);
    while i < n && white_space(output.get_char(i))
        invariant
            n == output@.len(),
            i <= n,
            trim_start(output@.subrange(i as int, n as int)) == trim_start(output@),
        decreases n - i,
    {
        assert(output@.subrange(i as int, n as int).drop_first() =~= output@.subrange(
            i + 1,
            n as int,
        ));
        i = i + 1;
    }
    let ghost start = output@.subrange(i as int, n as int);
    assert(trim_start(start) == start);
    let mut j: usize = n;
    while j > i && white_space(output.get_char(j - 1))
        invariant
            n == output@.len(),
            i <= j <= n,
            start == output@.subrange(i as int, n as int),
            trim_end(output@.subrange(i as int, j as int)) == trim_end(start),
        decreases j,
    {
        assert(output@.subrange(i as int, j as int).drop_last() =~= output@.subrange(
            i as int,
            j - 1,
        ));
        j = j - 1;
    }
    let r = output.substring_char(i, j);
    assert(trim_end(r@) == r@);
    String::from_str(r)
}

/// The error text of a failed git step: what failed, then git's output.
pub fn failure_message(what: &str, output: &str) -> (r: String)
    ensures
        r@ == what@ + " failed: "@ + output@,
{
    let mut s = join2(what, " failed: ");
    s.append(output);
    s
}

} // verus!
