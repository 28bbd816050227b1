use red_green_refactor::orchestrator::{
    after_green_run, after_refactor_run, first_green_step, GreenNext,
    attempt_message, commit_message, default_impl_attempts, default_max_context,
    default_test_cmd, preservation_branch_name, CycleError, CycleOutcome, Orchestrator,
    OrchestratorConfig,
};
use red_green_refactor::project::Project;
use red_green_refactor::providers::{MockProvider, ProviderKind};
use red_green_refactor::sim::SimProject;

const MOCK_LOG: &str = "red-green-refactor-mock.log";

fn orchestrator(attempts: usize) -> Orchestrator {
    let mut cfg = OrchestratorConfig::example();
    cfg.implementor_max_attempts = attempts;
    Orchestrator::new("/kata".to_string(), cfg)
}

/// A project with one commit already made, whose test runs follow `script`.
fn seeded(script: Vec<bool>) -> SimProject {
    let mut p = SimProject::new(script);
    p.ensure_repo().unwrap();
    p.commit_paths(&vec![], "initial").unwrap();
    p
}

fn run(o: &Orchestrator, p: &mut SimProject) -> Result<CycleOutcome, CycleError> {
    let mut tester = MockProvider::new();
    let mut implementor = MockProvider::new();
    let mut refactorer = MockProvider::new();
    o.red_green_refactor_cycle(p, &mut tester, &mut implementor, &mut refactorer)
}

#[test]
fn green_on_second_attempt() {
    let o = orchestrator(2);
    let mut p = seeded(vec![false, false, true, true]);
    let r = run(&o, &mut p);
    assert!(matches!(r, Ok(CycleOutcome::Completed { attempts: 2 })));
    assert_eq!(p.revision_count(), 5);
    assert_eq!(p.revision(1).unwrap().message, "chore(tester): mock patch");
    assert_eq!(p.revision(2).unwrap().message, "chore(implementor): mock patch (attempt 1)");
    assert_eq!(p.revision(3).unwrap().message, "chore(implementor): mock patch (attempt 2)");
    assert_eq!(p.revision(4).unwrap().message, "chore(refactorer): mock patch");
}

#[test]
fn all_attempts_fail_resets_to_tester_head() {
    let o = orchestrator(2);
    let mut p = seeded(vec![false, false, false]);
    let r = run(&o, &mut p);
    let head = match r {
        Ok(CycleOutcome::Exhausted { tester_head }) => tester_head,
        _ => panic!("expected the attempts to be exhausted"),
    };
    assert_eq!(p.revision_count(), 2);
    assert_eq!(p.get_head_commit().unwrap(), head);
    assert_eq!(p.revision(1).unwrap().id, head);
    assert_eq!(p.read(MOCK_LOG).unwrap(), "// TODO: add a failing test\n");
    assert!(p.branch_count() <= 1);
}

#[test]
fn exhaustion_with_one_and_three_attempts() {
    for n in [1usize, 3] {
        let o = orchestrator(n);
        let mut p = seeded(vec![false; n + 1]);
        let r = run(&o, &mut p);
        assert!(matches!(r, Ok(CycleOutcome::Exhausted { .. })));
        assert_eq!(p.revision_count(), 2);
        assert_eq!(p.read(MOCK_LOG).unwrap(), "// TODO: add a failing test\n");
    }
}

#[test]
fn zero_attempts_exhaust_at_once() {
    let o = orchestrator(0);
    let mut p = seeded(vec![false]);
    assert!(matches!(run(&o, &mut p), Ok(CycleOutcome::Exhausted { .. })));
    assert_eq!(p.revision_count(), 2);
}

#[test]
fn refactor_regression_is_undone() {
    let o = orchestrator(3);
    let mut p = seeded(vec![false, true, false]);
    let r = run(&o, &mut p);
    match r {
        Err(CycleError::RefactorRegressed { attempts, output }) => {
            assert_eq!(attempts, 1);
            assert_eq!(output, "test result: FAILED");
        }
        _ => panic!("expected a refactor regression"),
    }
    assert_eq!(p.revision_count(), 3);
    assert_eq!(
        p.read(MOCK_LOG).unwrap(),
        "// TODO: add a failing test\n// TODO: implement feature to make tests pass\n"
    );
}

#[test]
fn regression_message_carries_output() {
    let e = CycleError::RefactorRegressed { attempts: 1, output: "boom".to_string() };
    assert_eq!(e.message(), "Refactor step failed tests and was reverted. Output:\nboom");
}

#[test]
fn green_red_step_still_proceeds() {
    let o = orchestrator(2);
    let mut p = seeded(vec![true, true, true]);
    assert!(matches!(run(&o, &mut p), Ok(CycleOutcome::Completed { attempts: 1 })));
    assert_eq!(p.revision_count(), 4);
}

#[test]
fn cycle_on_fresh_project_initializes_repo() {
    let o = orchestrator(1);
    let mut p = SimProject::new(vec![false, true, true]);
    assert!(matches!(run(&o, &mut p), Ok(CycleOutcome::Completed { attempts: 1 })));
    assert_eq!(p.inits(), 1);
    assert_eq!(p.revision_count(), 3);
}

#[test]
fn ensure_repo_twice() {
    let mut p = SimProject::new(vec![]);
    assert!(p.ensure_repo().is_ok());
    assert!(p.ensure_repo().is_ok());
    assert_eq!(p.inits(), 1);
    assert_eq!(p.revision_count(), 0);
}

#[test]
fn empty_edit_set_still_commits() {
    let mut p = seeded(vec![]);
    let patch = red_green_refactor::providers::LlmPatch { files: vec![], commit_message: None, notes: None };
    p.apply_patch(&patch).unwrap();
    let touched = red_green_refactor::project::touched_paths(&patch);
    assert!(touched.is_empty());
    assert!(p.commit_paths(&touched, "empty").is_ok());
    assert_eq!(p.revision_count(), 2);
}

#[test]
fn reset_to_unknown_revision_fails() {
    let mut p = seeded(vec![]);
    assert!(p.reset_hard_to("nope").is_err());
    assert!(p.reset_hard_head_minus_one().is_err());
}

#[test]
fn config_defaults() {
    let c = OrchestratorConfig::example();
    assert_eq!(c.test_cmd, "cargo test --color never");
    assert_eq!(c.max_context_bytes, 200000);
    assert_eq!(c.implementor_max_attempts, 3);
    assert_eq!(c.tester.provider.kind, ProviderKind::Mock);
    assert_eq!(c.tester.provider.model, "mock");
    assert_eq!(
        c.refactorer.system_prompt.as_deref(),
        Some("You are the Refactorer. Improve code without changing behavior. Keep tests passing. Only output a JSON LlmPatch.")
    );
    assert_eq!(default_test_cmd(), "cargo test --color never");
    assert_eq!(default_max_context(), 200000);
    assert_eq!(default_impl_attempts(), 3);
}

#[test]
fn instructions_embed_prompt_and_failures() {
    let o = orchestrator(1);
    assert_eq!(
        o.build_tester_instructions(),
        "You are the Tester. Add a single failing test expressing a new behavior. Only output a JSON LlmPatch.\n\nTask: Add exactly one failing unit test (red) for the next small behavior in the kata. Do not modify implementation code. Output ONLY JSON of schema LlmPatch."
    );
    let s = o.build_implementor_instructions("FAIL x");
    assert!(s.starts_with("You are the Implementor."));
    assert!(s.ends_with("Test failures to fix:\nFAIL x"));
    let mut cfg = OrchestratorConfig::example();
    cfg.refactorer.system_prompt = None;
    let o = Orchestrator::new("/k".to_string(), cfg);
    assert!(o.build_refactorer_instructions().starts_with("Task: Refactor"));
}

#[test]
fn commit_messages() {
    assert_eq!(commit_message(&None, "test: add failing test"), "test: add failing test");
    assert_eq!(commit_message(&Some("x".to_string()), "d"), "x");
    assert_eq!(attempt_message(&None, 2), "feat: make tests pass (attempt 2)");
    assert_eq!(attempt_message(&Some("fix".to_string()), 10), "fix (attempt 10)");
    assert_eq!(preservation_branch_name("20240101120000"), "attempts/implementor-20240101120000");
}

#[test]
fn green_step_decisions() {
    assert_eq!(first_green_step(0), GreenNext::Exhausted);
    assert_eq!(first_green_step(2), GreenNext::Retry);
    assert_eq!(after_green_run(1, 2, true), GreenNext::Refactor);
    assert_eq!(after_green_run(1, 2, false), GreenNext::Retry);
    assert_eq!(after_green_run(2, 2, false), GreenNext::Exhausted);
    assert_eq!(after_green_run(2, 2, true), GreenNext::Refactor);
}

#[test]
fn refactor_step_decisions() {
    assert!(matches!(
        after_refactor_run(true, 3, "ok".to_string()),
        Ok(CycleOutcome::Completed { attempts: 3 })
    ));
    match after_refactor_run(false, 2, "bad".to_string()) {
        Err(CycleError::RefactorRegressed { attempts, output }) => {
            assert_eq!(attempts, 2);
            assert_eq!(output, "bad");
        }
        _ => panic!("expected a regression"),
    }
}

fn rewrite(path: &str, content: &str) -> red_green_refactor::providers::LlmPatch {
    red_green_refactor::providers::LlmPatch {
        files: vec![red_green_refactor::providers::FileEdit {
            path: path.to_string(),
            mode: red_green_refactor::providers::EditMode::Rewrite,
            content: content.to_string(),
        }],
        commit_message: None,
        notes: None,
    }
}

#[test]
fn commit_records_only_listed_paths() {
    let mut p = seeded(vec![]);
    p.apply_patch(&rewrite("a", "1")).unwrap();
    p.apply_patch(&rewrite("b", "2")).unwrap();
    p.commit_paths(&vec!["a".to_string()], "only a").unwrap();
    let rev = p.revision(1).unwrap();
    assert_eq!(rev.tree.read("a").unwrap(), "1");
    assert!(rev.tree.read("b").is_none());
    assert_eq!(rev.message, "only a");
}

#[test]
fn empty_commit_keeps_head_tree() {
    let mut p = seeded(vec![]);
    p.apply_patch(&rewrite("a", "1")).unwrap();
    p.commit_paths(&vec!["a".to_string()], "a").unwrap();
    p.apply_patch(&rewrite("a", "changed")).unwrap();
    p.commit_paths(&vec![], "empty").unwrap();
    let rev = p.revision(2).unwrap();
    assert_eq!(rev.tree.read("a").unwrap(), "1");
    assert_eq!(p.read("a").unwrap(), "changed");
}

#[test]
fn commit_of_missing_path_fails_and_changes_nothing() {
    let mut p = seeded(vec![]);
    assert!(p.commit_paths(&vec!["nope".to_string()], "m").is_err());
    assert_eq!(p.revision_count(), 1);
}

#[test]
fn reset_restores_recorded_tree() {
    let mut p = seeded(vec![]);
    p.apply_patch(&rewrite("a", "1")).unwrap();
    p.commit_paths(&vec!["a".to_string()], "a").unwrap();
    let head = p.get_head_commit().unwrap();
    p.apply_patch(&rewrite("a", "2")).unwrap();
    p.commit_paths(&vec!["a".to_string()], "a2").unwrap();
    p.reset_hard_to(&head).unwrap();
    assert_eq!(p.read("a").unwrap(), "1");
    assert_eq!(p.revision_count(), 2);
}

#[test]
fn branch_name_must_be_new() {
    let mut p = seeded(vec![]);
    assert!(p.create_branch_at_head("keep").is_ok());
    assert!(p.create_branch_at_head("keep").is_err());
    assert_eq!(p.branch_count(), 1);
}
