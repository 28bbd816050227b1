use red_green_refactor::providers::{EditMode, FileEdit, LlmPatch};
use red_green_refactor::workspace::{context_includes, context_skips_dir, ContextBuilder, MemTree};

fn edit(path: &str, mode: EditMode, content: &str) -> FileEdit {
    FileEdit { path: path.to_string(), mode, content: content.to_string() }
}

fn patch(files: Vec<FileEdit>) -> LlmPatch {
    LlmPatch { files, commit_message: None, notes: None }
}

#[test]
fn empty_patch_touches_nothing() {
    let mut t = MemTree::new();
    let touched = t.apply_patch(&patch(vec![]));
    assert!(touched.is_empty());
    assert!(t.read("a").is_none());
}

#[test]
fn rewrite_then_read() {
    let mut t = MemTree::new();
    t.apply_patch(&patch(vec![edit("src/a.rs", EditMode::Rewrite, "old")]));
    t.apply_patch(&patch(vec![edit("src/a.rs", EditMode::Rewrite, "new")]));
    assert_eq!(t.read("src/a.rs").unwrap(), "new");
}

#[test]
fn append_then_read() {
    let mut t = MemTree::new();
    t.apply_patch(&patch(vec![edit("f", EditMode::Append, "one\n")]));
    t.apply_patch(&patch(vec![edit("f", EditMode::Append, "two\n")]));
    assert_eq!(t.read("f").unwrap(), "one\ntwo\n");
}

#[test]
fn repeated_paths_in_one_patch() {
    let mut t = MemTree::new();
    let touched = t.apply_patch(&patch(vec![
        edit("x", EditMode::Rewrite, "a"),
        edit("y", EditMode::Append, "b"),
        edit("x", EditMode::Append, "c"),
        edit("y", EditMode::Rewrite, "d"),
    ]));
    assert_eq!(touched, vec!["x", "y", "x", "y"]);
    assert_eq!(t.read("x").unwrap(), "ac");
    assert_eq!(t.read("y").unwrap(), "d");
}

#[test]
fn context_file_selection() {
    assert!(context_includes("src/lib.rs"));
    assert!(context_includes("Cargo.toml"));
    assert!(context_includes("README"));
    assert!(context_includes("docs/guide.md"));
    assert!(context_includes("tests/data.txt"));
    assert!(!context_includes("Cargo.lock"));
    assert!(!context_includes("assets/logo.png"));
    assert!(context_skips_dir(".git"));
    assert!(context_skips_dir("target"));
    assert!(!context_skips_dir("src"));
}

#[test]
fn context_budget() {
    let mut b = ContextBuilder::new(50);
    assert!(b.offer("a.rs", "fn a() {}"));
    assert_eq!(b.text(), "\n===== FILE: a.rs =====\nfn a() {}");
    assert_eq!(b.text().len(), 20 + 4 + 9);
    assert!(!b.offer("b.rs", "fn b() {}"));
    assert!(!b.offer("c", ""));
    assert_eq!(b.text(), "\n===== FILE: a.rs =====\nfn a() {}");
}

#[test]
fn context_budget_exact_fit() {
    let mut b = ContextBuilder::new(25);
    assert!(b.offer("ab", "xyz"));
    assert!(!ContextBuilder::new(24).offer("ab", "xyz"));
}
