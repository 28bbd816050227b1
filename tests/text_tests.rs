use red_green_refactor::text::{str_eq, trim_trailing_slashes, usize_to_decimal};
use red_green_refactor::vcs::{
    branch_command, commit_commands, failure_message, head_command, head_from_output,
    init_command, needs_init, reset_command, reset_one_command,
};

#[test]
fn decimal_numbers() {
    assert_eq!(usize_to_decimal(0), "0");
    assert_eq!(usize_to_decimal(7), "7");
    assert_eq!(usize_to_decimal(1234), "1234");
    assert_eq!(usize_to_decimal(usize::MAX), usize::MAX.to_string());
}

#[test]
fn string_equality_and_trim() {
    assert!(str_eq("abc", "abc"));
    assert!(!str_eq("abc", "abd"));
    assert!(!str_eq("ab", "abc"));
    assert_eq!(trim_trailing_slashes("a//"), "a");
    assert_eq!(trim_trailing_slashes("///"), "");
}

#[test]
fn git_commit_commands() {
    let none: Vec<String> = vec![];
    let c = commit_commands(&none, "msg");
    assert_eq!(c.len(), 1);
    assert_eq!(c[0].args, vec!["commit", "--allow-empty", "-m", "msg"]);
    assert_eq!(c[0].label, "git commit");
    let paths = vec!["a.rs".to_string(), "b/c.rs".to_string()];
    let c = commit_commands(&paths, "m");
    assert_eq!(c.len(), 2);
    assert_eq!(c[0].args, vec!["add", "--", "a.rs", "b/c.rs"]);
    assert_eq!(c[0].label, "git add");
    assert_eq!(c[1].args, vec!["commit", "--allow-empty", "-m", "m"]);
}

#[test]
fn git_other_commands() {
    assert_eq!(init_command().args, vec!["init"]);
    assert_eq!(init_command().label, "git init");
    assert_eq!(head_command().args, vec!["rev-parse", "HEAD"]);
    assert_eq!(head_command().label, "git rev-parse HEAD");
    assert_eq!(reset_command("abc").args, vec!["reset", "--hard", "abc"]);
    assert_eq!(reset_command("abc").label, "git reset --hard abc");
    assert_eq!(reset_one_command().args, vec!["reset", "--hard", "HEAD~1"]);
    assert_eq!(reset_one_command().label, "git reset");
    assert_eq!(branch_command("b1").args, vec!["branch", "b1"]);
    assert_eq!(branch_command("b1").label, "git branch b1");
    assert!(needs_init(false));
    assert!(!needs_init(true));
}

#[test]
fn head_output_is_trimmed() {
    assert_eq!(head_from_output("  0123abcd\n"), "0123abcd");
    assert_eq!(failure_message("git init", "oops"), "git init failed: oops");
}

#[test]
fn head_output_trims_unicode_white_space() {
    assert_eq!(head_from_output("\u{3000}abc\u{85}\t"), "abc");
    assert_eq!(head_from_output(" \n "), "");
}
