use vstd::prelude::*;
use crate::project::{head_tree, latest_at, path_views, staged, touched_paths, Project, ProjectError};
use crate::workspace::apply_edits;
use crate::providers::{
    built_from, Backend, FileEdit, LlmPatch, LlmProvider, ProviderConfig, ProviderError,
    ProviderFactory, ProviderKind, RoleProviderConfig,
};
use crate::text::{decimal, join2, join3, usize_to_decimal};

verus! {

/// Settings of the three roles and of the cycle.
#[derive(Clone, Debug)]
pub struct OrchestratorConfig {
    pub tester: RoleProviderConfig,
    pub implementor: RoleProviderConfig,
    pub refactorer: RoleProviderConfig,
    pub test_cmd: String,
    pub max_context_bytes: usize,
    pub implementor_max_attempts: usize,
}

pub const DEFAULT_TEST_CMD: &'static str = "cargo test --color never";
pub const DEFAULT_MAX_CONTEXT: usize = 200000;
pub const DEFAULT_IMPL_ATTEMPTS: usize = 3;

/// The test command used when the configuration names none.
pub fn default_test_cmd() -> (r: String)
    ensures
        r@ == DEFAULT_TEST_CMD@,
{
    String::from_str(DEFAULT_TEST_CMD)
}

/// The context budget used when the configuration names none.
pub fn default_max_context() -> (r: usize)
    ensures
        r == DEFAULT_MAX_CONTEXT,
{
    DEFAULT_MAX_CONTEXT
}

/// The implementer attempt budget used when the configuration names none.
pub fn default_impl_attempts() -> (r: usize)
    ensures
        r == DEFAULT_IMPL_ATTEMPTS,
{
    DEFAULT_IMPL_ATTEMPTS
}

pub const TESTER_PROMPT: &'static str = "You are the Tester. Add a single failing test expressing a new behavior. Only output a JSON LlmPatch.";
pub const IMPLEMENTOR_PROMPT: &'static str = "You are the Implementor. Make tests pass with minimal changes. Only output a JSON LlmPatch.";
pub const REFACTORER_PROMPT: &'static str = "You are the Refactorer. Improve code without changing behavior. Keep tests passing. Only output a JSON LlmPatch.";

/// A role served by the mock backend with the given system prompt.
pub open spec fn is_mock_role(r: RoleProviderConfig, prompt: Seq<char>) -> bool {
    &&& r.provider.kind == ProviderKind::Mock
    &&& r.provider.model@ == "mock"@
    &&& r.provider.base_url is None
    &&& r.provider.api_key_env is None
    &&& r.provider.organization is None
    &&& r.provider.api_key_header is None
    &&& r.provider.api_key_prefix is None
    &&& r.system_prompt matches Some(p) && p@ == prompt
}

fn mock_role(prompt: &str) -> (r: RoleProviderConfig)
    ensures
        is_mock_role(r, prompt@),
{
    RoleProviderConfig {
        provider: ProviderConfig {
            kind: ProviderKind::Mock,
            model: String::from_str("mock"),
            base_url: None,
            api_key_env: None,
            organization: None,
            api_key_header: None,
            api_key_prefix: None,
        },
        system_prompt: Some(String::from_str(prompt)),
    }
}

impl OrchestratorConfig {
    /// A template configuration: all three roles on the mock backend with their
    /// default prompts, and the default command and budgets.
    pub fn example() -> (r: Self)
        ensures
            is_mock_role(r.tester, TESTER_PROMPT@),
            is_mock_role(r.implementor, IMPLEMENTOR_PROMPT@),
            is_mock_role(r.refactorer, REFACTORER_PROMPT@),
            r.test_cmd@ == DEFAULT_TEST_CMD@,
            r.max_context_bytes == DEFAULT_MAX_CONTEXT,
            r.implementor_max_attempts == DEFAULT_IMPL_ATTEMPTS,
    {
        OrchestratorConfig {
            tester: mock_role(TESTER_PROMPT),
            implementor: mock_role(IMPLEMENTOR_PROMPT),
            refactorer: mock_role(REFACTORER_PROMPT),
            test_cmd: default_test_cmd(),
            max_context_bytes: default_max_context(),
            implementor_max_attempts: default_impl_attempts(),
        }
    }
}

pub const TESTER_TASK: &'static str = "Task: Add exactly one failing unit test (red) for the next small behavior in the kata. Do not modify implementation code. Output ONLY JSON of schema LlmPatch.";
pub const IMPLEMENTOR_TASK: &'static str = "Task: Make the test suite pass with the simplest change. Keep edits minimal and focused. Use baby steps. Output ONLY JSON (LlmPatch).\n\nTest failures to fix:\n";
pub const REFACTORER_TASK: &'static str = "Task: Refactor to improve clarity, remove duplication, and prepare for change. Don't change behavior. After edits, all tests must still pass. Keep steps small. Output ONLY JSON (LlmPatch).";

/// The role's system prompt and a blank line, if it has one, then `task`.
pub open spec fn prompt_then(prompt: Option<String>, task: Seq<char>) -> Seq<char> {
    match prompt {
        Some(p) => p@ + "\n\n"@ + task,
        None => task,
    }
}

fn instructions_for(prompt: &Option<String>, task: &str) -> (r: String)
    ensures
        r@ == prompt_then(*prompt, task@),
{
    match prompt {
        Some(p) => join3(p.as_str(), "\n\n", task),
        None => String::from_str(task),
    }
}

pub const TESTER_DEFAULT_MESSAGE: &'static str = "test: add failing test";
pub const IMPLEMENTOR_DEFAULT_MESSAGE: &'static str = "feat: make tests pass";
pub const REFACTORER_DEFAULT_MESSAGE: &'static str = "refactor: improve design";
pub const BRANCH_PREFIX: &'static str = "attempts/implementor-";

/// The backend's commit message, or the step's default when it gave none.
pub open spec fn message_or(m: Option<String>, d: Seq<char>) -> Seq<char> {
    match m {
        Some(s) => s@,
        None => d,
    }
}

/// The commit message of a step: the backend's, or `default` when absent.
pub fn commit_message(given: &Option<String>, default: &str) -> (r: String)
    ensures
        r@ == message_or(*given, default@),
{
    match given {
        Some(m) => m.clone(),
        None => String::from_str(default),
    }
}

/// The commit message of an implementer attempt: the backend's message or the
/// default, always followed by the attempt number.
pub fn attempt_message(given: &Option<String>, attempt: usize) -> (r: String)
    ensures
        r@ == message_or(*given, IMPLEMENTOR_DEFAULT_MESSAGE@) + " (attempt "@ + decimal(
            attempt as nat,
        ) + ")"@,
{
    let base = commit_message(given, IMPLEMENTOR_DEFAULT_MESSAGE);
    let num = usize_to_decimal(attempt);
    let mut s = join3(base.as_str(), " (attempt ", num.as_str());
    s.append(")");
    s
}

/// Name of the branch that keeps failed implementer attempts, from a timestamp.
pub fn preservation_branch_name(stamp: &str) -> (r: String)
    ensures
        r@ == BRANCH_PREFIX@ + stamp@,
{
    join2(BRANCH_PREFIX, stamp)
}

#[verifier::external_type_specification]
#[verifier::external_body]
pub struct ExSystemTime(std::time::SystemTime);

/// Relies on `SystemTime::now`: the system clock's current reading.
#[verifier::external_body]
fn clock_now() -> (r: std::time::SystemTime) {
    std::time::SystemTime::now()
}

/// Relies on `SystemTime::duration_since`: how long after the Unix epoch `t`
/// lies, or `None` when it lies before.
#[verifier::external_body]
fn since_unix_epoch(t: &std::time::SystemTime) -> (r: Option<core::time::Duration>) {
    t.duration_since(std::time::UNIX_EPOCH).ok()
}

/// Relies on `Duration::as_secs`: the whole seconds of `d`.
#[verifier::external_body]
fn whole_seconds(d: &core::time::Duration) -> (r: u64) {
    d.as_secs()
}

/// Whole seconds since the Unix epoch, or `None` when the clock reads an
/// earlier time.
fn unix_seconds() -> (r: Option<u64>) {
    let now = clock_now();
    match since_unix_epoch(&now) {
        Some(d) => Some(whole_seconds(&d)),
        None => None,
    }
}

/// Format of the timestamp in a preservation branch's name.
pub const STAMP_FORMAT: &'static str = "%Y%m%d%H%M%S";

/// The UTC instant `secs` seconds after the Unix epoch, written in `format`.
pub uninterp spec fn utc_formatted(secs: int, format: Seq<char>) -> Seq<char>;

/// Relies on chrono's `DateTime::from_timestamp` (`None` outside chrono's
/// range) and `DateTime::format`, which writes that UTC instant in `format`.
/// Only the fixed stamp format is passed, which formats without error.
#[verifier::external_body]
fn utc_stamp(secs: i64, format: &str) -> (r: Option<String>)
    requires
        format@ == STAMP_FORMAT@,
    ensures
        r matches Some(s) ==> s@ == utc_formatted(secs as int, format@),
{
    chrono::DateTime::from_timestamp(secs, 0).map(|t| t.format(format).to_string())
}

/// The current UTC time written in the stamp format, if the clock can be read
/// and written that way.
fn timestamp_now() -> (r: Option<String>)
    ensures
        r matches Some(s) ==> exists|secs: int| s@ == utc_formatted(secs, STAMP_FORMAT@),
{
    match unix_seconds() {
        Some(secs) => {
            if secs <= 9223372036854775807u64 {
                utc_stamp(secs as i64, STAMP_FORMAT)
            } else {
                None
            }
        },
        None => None,
    }
}

/// How a cycle that returned without error ended.
#[derive(Clone, Debug)]
pub enum CycleOutcome {
    /// The implementer made the tests pass after `attempts` tries and the
    /// refactor kept them passing.
    Completed { attempts: usize },
    /// Every implementer attempt failed; the project is back at the test
    /// author's revision `tester_head`.
    Exhausted { tester_head: String },
}

/// Why a cycle stopped with an error.
#[derive(Clone, Debug)]
pub enum CycleError {
    Provider(ProviderError),
    Project(ProjectError),
    /// The refactor broke the tests; its revision was undone. `attempts` is the
    /// implementer attempt that had made the tests pass.
    RefactorRegressed { attempts: usize, output: String },
}

pub const REGRESSION_MESSAGE: &'static str = "Refactor step failed tests and was reverted. Output:\n";

impl CycleError {
    /// A readable description of the error.
    pub fn message(&self) -> (r: String)
        ensures
            self matches CycleError::RefactorRegressed { output, .. } ==> r@ == REGRESSION_MESSAGE@
                + output@,
            self matches CycleError::Provider(e) ==> r@ == e.message@,
            self matches CycleError::Project(e) ==> r@ == e.message@,
    {
        match self {
            CycleError::Provider(e) => e.message.clone(),
            CycleError::Project(e) => e.message.clone(),
            CycleError::RefactorRegressed { output, .. } => join2(REGRESSION_MESSAGE, output.as_str()),
        }
    }
}

fn from_provider(r: Result<LlmPatch, ProviderError>) -> (out: Result<LlmPatch, CycleError>)
    ensures
        r is Ok <==> out is Ok,
        r matches Ok(p) ==> out == Ok::<LlmPatch, CycleError>(p),
        out matches Err(e) ==> e is Provider,
{
    match r {
        Ok(p) => Ok(p),
        Err(e) => Err(CycleError::Provider(e)),
    }
}

/// What follows an implementer attempt's test run.
#[derive(Clone, Copy, Debug, PartialEq, Eq, Structural)]
pub enum GreenNext {
    /// Try another implementer attempt.
    Retry,
    /// The tests pass: go on to the refactor.
    Refactor,
    /// The last attempt failed: preserve the attempts and go back to red.
    Exhausted,
}

/// The step after the test run of implementer attempt `attempt` of `max`.
pub fn after_green_run(attempt: usize, max: usize, passed: bool) -> (r: GreenNext)
    requires
        1 <= attempt <= max,
    ensures
        passed ==> r == GreenNext::Refactor,
        !passed && attempt < max ==> r == GreenNext::Retry,
        !passed && attempt == max ==> r == GreenNext::Exhausted,
{
    if passed {
        GreenNext::Refactor
    } else if attempt < max {
        GreenNext::Retry
    } else {
        GreenNext::Exhausted
    }
}

/// The step before any implementer attempt: none are allowed when `max` is zero.
pub fn first_green_step(max: usize) -> (r: GreenNext)
    ensures
        max == 0 ==> r == GreenNext::Exhausted,
        max > 0 ==> r == GreenNext::Retry,
{
    if max == 0 {
        GreenNext::Exhausted
    } else {
        GreenNext::Retry
    }
}

/// The cycle's result after the refactor's test run, given the implementer
/// attempt that made the tests pass.
pub fn after_refactor_run(passed: bool, attempts: usize, output: String) -> (r: Result<
    CycleOutcome,
    CycleError,
>)
    ensures
        passed ==> (r matches Ok(CycleOutcome::Completed { attempts: a }) && a == attempts),
        !passed ==> (r matches Err(CycleError::RefactorRegressed { attempts: a, output: o })
            && a == attempts && o@ == output@),
{
    if passed {
        Ok(CycleOutcome::Completed { attempts })
    } else {
        Err(CycleError::RefactorRegressed { attempts, output })
    }
}

fn lift<T>(r: Result<T, ProjectError>) -> (out: Result<T, CycleError>)
    ensures
        r is Ok <==> out is Ok,
        r matches Ok(v) ==> out matches Ok(w) && w == v,
        out matches Err(e) ==> e is Project,
{
    match r {
        Ok(v) => Ok(v),
        Err(e) => Err(CycleError::Project(e)),
    }
}

/// `h` extends `base` by exactly `n` revisions, none of them equal to `rev`.
pub open spec fn extends_without(h: Seq<Seq<char>>, base: Seq<Seq<char>>, n: int, rev: Seq<char>) -> bool {
    &&& h.len() == base.len() + n
    &&& h.subrange(0, base.len() as int) == base
    &&& forall|j: int| base.len() <= j < h.len() ==> h[j] != rev
}

/// The test runs recorded in `after` beyond those already in `before`.
pub open spec fn runs_since(before: Seq<(bool, Seq<char>)>, after: Seq<(bool, Seq<char>)>) -> Seq<
    (bool, Seq<char>),
> {
    after.subrange(before.len() as int, after.len() as int)
}

/// The backend requests in `after` beyond those already in `before`.
pub open spec fn requests_since(
    before: Seq<(Seq<char>, Seq<char>)>,
    after: Seq<(Seq<char>, Seq<char>)>,
) -> Seq<(Seq<char>, Seq<char>)> {
    after.subrange(before.len() as int, after.len() as int)
}

/// The runs of implementer attempts `1..n` failed (run 0 is the red step's).
pub open spec fn attempts_failed(runs: Seq<(bool, Seq<char>)>, n: int) -> bool {
    forall|k: int| 1 <= k < n ==> !(#[trigger] runs[k]).0
}

/// The implementer was asked `n` times, each time with the output of the
/// test run just before.
pub open spec fn implementor_asked(
    reqs: Seq<(Seq<char>, Seq<char>)>,
    runs: Seq<(bool, Seq<char>)>,
    n: int,
    prompt: Option<String>,
) -> bool {
    &&& reqs.len() == n
    &&& forall|k: int|
        0 <= k < n ==> #[trigger] reqs[k] == ("implementor"@, prompt_then(prompt, IMPLEMENTOR_TASK@)
            + runs[k].1)
}

/// The commit message of a step whose reply carried `m`: the reply's message
/// or the step's default `d`; an implementer attempt's default is fixed and its
/// number always follows.
pub open spec fn commit_text(m: Option<String>, d: Seq<char>, attempt: Option<usize>) -> Seq<char> {
    match attempt {
        Some(n) => message_or(m, IMPLEMENTOR_DEFAULT_MESSAGE@) + " (attempt "@ + decimal(n as nat)
            + ")"@,
        None => message_or(m, d),
    }
}

/// The commits after position `base` of `msgs` are implementer attempts
/// `1..=n`, each with the message its reply asked for.
pub open spec fn attempt_messages(msgs: Seq<Seq<char>>, base: int, replies: Seq<LlmPatch>, n: int) -> bool {
    forall|k: int|
        1 <= k <= n ==> #[trigger] msgs[base + k] == commit_text(
            replies[k - 1].commit_message,
            IMPLEMENTOR_DEFAULT_MESSAGE@,
            Some(k as usize),
        )
}

/// The paths an edit list names, in order.
pub open spec fn edit_paths(edits: Seq<FileEdit>) -> Seq<Seq<char>> {
    edits.map_values(|e: FileEdit| e.path@)
}

/// The tree a step's revision records: the head's tree with the paths the
/// reply edits taken from the working tree after those edits.
pub open spec fn step_tree(
    snaps: Seq<Map<Seq<char>, Seq<char>>>,
    files: Map<Seq<char>, Seq<char>>,
    reply: LlmPatch,
) -> Map<Seq<char>, Seq<char>> {
    staged(head_tree(snaps), apply_edits(files, reply.files@), edit_paths(reply.files@))
}

/// The first revision after `msgs.len()`/`snaps.len()` is the test author's:
/// it carries the reply's message (or the step's default) and the reply's edits.
pub open spec fn red_recorded(
    msgs: Seq<Seq<char>>,
    m_base: int,
    snaps: Seq<Map<Seq<char>, Seq<char>>>,
    s_before: Seq<Map<Seq<char>, Seq<char>>>,
    files: Map<Seq<char>, Seq<char>>,
    reply: LlmPatch,
) -> bool {
    &&& msgs[m_base] == message_or(reply.commit_message, TESTER_DEFAULT_MESSAGE@)
    &&& snaps[s_before.len() as int] == step_tree(s_before, files, reply)
}

/// How many entries `after` has beyond `before`.
pub open spec fn added<T>(before: Seq<T>, after: Seq<T>) -> int {
    after.len() - before.len()
}

/// The replies in `after` beyond those already in `before`.
pub open spec fn replies_since(before: Seq<LlmPatch>, after: Seq<LlmPatch>) -> Seq<LlmPatch> {
    after.subrange(before.len() as int, after.len() as int)
}

/// The controller of the red, green and refactor steps.
pub struct Orchestrator {
    pub project_root: String,
    pub cfg: OrchestratorConfig,
}

impl Orchestrator {
    pub fn new(project_root: String, cfg: OrchestratorConfig) -> (r: Self)
        ensures
            r.project_root == project_root,
            r.cfg == cfg,
    {
        Orchestrator { project_root, cfg }
    }

    /// The backends of the test author, implementer and refactorer, in that order.
    pub fn backends(&self) -> (r: (Backend, Backend, Backend))
        ensures
            built_from(r.0, self.cfg.tester.provider),
            built_from(r.1, self.cfg.implementor.provider),
            built_from(r.2, self.cfg.refactorer.provider),
    {
        (
            ProviderFactory::build(&self.cfg.tester.provider),
            ProviderFactory::build(&self.cfg.implementor.provider),
            ProviderFactory::build(&self.cfg.refactorer.provider),
        )
    }

    pub fn build_tester_instructions(&self) -> (r: String)
        ensures
            r@ == prompt_then(self.cfg.tester.system_prompt, TESTER_TASK@),
    {
        instructions_for(&self.cfg.tester.system_prompt, TESTER_TASK)
    }

    pub fn build_implementor_instructions(&self, failing_output: &str) -> (r: String)
        ensures
            r@ == prompt_then(self.cfg.implementor.system_prompt, IMPLEMENTOR_TASK@)
                + failing_output@,
    {
        let mut s = instructions_for(&self.cfg.implementor.system_prompt, IMPLEMENTOR_TASK);
        s.append(failing_output);
        s
    }

    pub fn build_refactorer_instructions(&self) -> (r: String)
        ensures
            r@ == prompt_then(self.cfg.refactorer.system_prompt, REFACTORER_TASK@),
    {
        instructions_for(&self.cfg.refactorer.system_prompt, REFACTORER_TASK)
    }
    /// Asks `backend` for the edits of `role`, applies them and commits the
    /// touched paths. The message is the backend's or `default_message`,
    /// followed by the attempt number when there is one.
    fn propose_and_commit<P: Project, B: LlmProvider>(
        &self,
        project: &mut P,
        backend: &mut B,
        role: &str,
        instructions: &str,
        default_message: &str,
        attempt: Option<usize>,
    ) -> (r: Result<(), CycleError>)
        ensures
            r is Ok ==> final(backend).requests() == old(backend).requests().push((role@, instructions@)),
            final(backend).failures() >= old(backend).failures(),
            final(project).failures() >= old(project).failures(),
            r matches Err(e) ==> !(e is RefactorRegressed),
            r matches Err(CycleError::Project(_)) ==> final(project).failures() > old(project).failures(),
            r matches Err(CycleError::Provider(_)) ==> final(backend).failures() > old(backend).failures(),
            r matches Err(CycleError::Provider(_)) ==> {
                &&& final(backend).requests() == old(backend).requests().push((role@, instructions@))
                &&& final(backend).replies() == old(backend).replies()
                &&& final(project).history() == old(project).history()
                &&& final(project).test_log() == old(project).test_log()
                &&& final(project).branches() == old(project).branches()
            },
            r is Ok ==> exists|id: Seq<char>|
                !old(project).history().contains(id) && final(project).history()
                    == old(project).history().push(id),
            r is Ok ==> final(backend).replies().len() == old(backend).replies().len() + 1,
            r is Ok ==> final(backend).replies().drop_last() == old(backend).replies(),
            r is Ok ==> final(project).messages() == old(project).messages().push(
                commit_text(final(backend).replies().last().commit_message, default_message@, attempt),
            ),
            r is Ok ==> final(project).snapshots().last() == step_tree(
                old(project).snapshots(),
                old(project).files(),
                final(backend).replies().last(),
            ),
            r is Ok ==> final(project).test_log() == old(project).test_log(),
            r is Ok ==> final(project).failures() == old(project).failures(),
            r is Ok ==> final(backend).failures() == old(backend).failures(),
            r is Ok ==> final(project).snapshots().len() == old(project).snapshots().len() + 1,
            r is Ok ==> final(project).snapshots().subrange(0, old(project).snapshots().len() as int)
                == old(project).snapshots(),
            r is Ok ==> final(project).branches() == old(project).branches(),
    {
        let context = match lift(project.collect_context(self.cfg.max_context_bytes)) {
            Ok(v) => v,
            Err(e) => return Err(e),
        };
        let patch = match from_provider(backend.generate_patch(role, context.as_str(), instructions)) {
            Ok(v) => v,
            Err(e) => return Err(e),
        };
        if let Err(e) = lift(project.apply_patch(&patch)) {
            return Err(e);
        }
        let touched = touched_paths(&patch);
        assert(path_views(touched@) =~= edit_paths(patch.files@));
        let message = match attempt {
            Some(n) => attempt_message(&patch.commit_message, n),
            None => commit_message(&patch.commit_message, default_message),
        };
        let r = lift(project.commit_paths(&touched, message.as_str()));
        assert(r is Ok ==> project.snapshots().subrange(0, old(project).snapshots().len() as int)
            =~= old(project).snapshots());
        r
    }

    /// One red, green and refactor cycle.
    ///
    /// Red: the test author's edits are applied and committed, and the new
    /// revision is kept as the anchor. Green: up to
    /// `implementor_max_attempts` implementer edits are applied and committed,
    /// each followed by a test run, until one passes; each attempt is shown the
    /// output of the run before it. If none passes, the attempts are labelled
    /// with a branch (best effort) and the project is reset to the anchor; the
    /// cycle still succeeds. Refactor: the refactorer's edits are committed and
    /// the tests run; if they fail, that one revision is undone and the cycle
    /// fails with the test output.
    ///
    /// An error other than a refactor regression comes only from a failed
    /// operation of the project or a failed backend request.
    pub fn red_green_refactor_cycle<P: Project, B: LlmProvider>(
        &self,
        project: &mut P,
        tester: &mut B,
        implementor: &mut B,
        refactorer: &mut B,
    ) -> (r: Result<CycleOutcome, CycleError>)
        requires
            old(project).messages().len() == old(project).history().len(),
            old(project).snapshots().len() == old(project).history().len(),
        ensures
            r matches Err(CycleError::Project(_)) ==> final(project).failures() > old(project).failures(),
            r matches Err(CycleError::Provider(_)) ==> final(tester).failures() + final(implementor).failures() + final(refactorer).failures() > old(tester).failures() + old(implementor).failures() + old(refactorer).failures(),
            r matches Err(CycleError::Provider(_)) ==> {
                let got = added(old(tester).replies(), final(tester).replies()) + added(
                    old(implementor).replies(),
                    final(implementor).replies(),
                ) + added(old(refactorer).replies(), final(refactorer).replies());
                let asked = added(old(tester).requests(), final(tester).requests()) + added(
                    old(implementor).requests(),
                    final(implementor).requests(),
                ) + added(old(refactorer).requests(), final(refactorer).requests());
                &&& asked == got + 1
                &&& final(project).test_log().len() == old(project).test_log().len() + got
                &&& final(project).history().len() == old(project).history().len() + got
                &&& final(project).branches() == old(project).branches()
            },
            (r is Ok || r matches Err(CycleError::RefactorRegressed { .. })) ==> {
                &&& final(tester).requests() == old(tester).requests().push(
                    ("tester"@, prompt_then(self.cfg.tester.system_prompt, TESTER_TASK@)),
                )
                &&& final(project).failures() == old(project).failures()
            },
            r matches Ok(CycleOutcome::Exhausted { tester_head }) ==> {
                let runs = runs_since(old(project).test_log(), final(project).test_log());
                let n = self.cfg.implementor_max_attempts as int;
                &&& final(project).history() == old(project).history().push(tester_head@)
                &&& (final(project).branches() == old(project).branches() || exists|
                    name: Seq<char>,
                    target: Seq<char>,
                |
                    {
                        &&& exists|secs: int| name == BRANCH_PREFIX@ + utc_formatted(secs, STAMP_FORMAT@)
                        &&& final(project).branches() == old(project).branches().insert(name, target)
                        &&& n >= 1 ==> !final(project).history().contains(target)
                    })
                &&& final(tester).replies().len() == old(tester).replies().len() + 1
                &&& final(project).files() == final(project).snapshots().last()
                &&& final(project).messages() == old(project).messages().push(
                    message_or(
                        final(tester).replies().last().commit_message,
                        TESTER_DEFAULT_MESSAGE@,
                    ),
                )
                &&& final(project).snapshots().last() == step_tree(
                    old(project).snapshots(),
                    old(project).files(),
                    final(tester).replies().last(),
                )
                &&& final(project).snapshots().len() == old(project).snapshots().len() + 1
                &&& final(project).snapshots().subrange(0, old(project).snapshots().len() as int)
                    == old(project).snapshots()
                &&& runs.len() == n + 1
                &&& attempts_failed(runs, n + 1)
                &&& implementor_asked(
                    requests_since(old(implementor).requests(), final(implementor).requests()),
                    runs,
                    n,
                    self.cfg.implementor.system_prompt,
                )
                &&& final(refactorer).requests() == old(refactorer).requests()
            },
            r matches Ok(CycleOutcome::Completed { attempts }) ==> {
                let runs = runs_since(old(project).test_log(), final(project).test_log());
                let base = old(project).history().len();
                &&& 1 <= attempts <= self.cfg.implementor_max_attempts
                &&& runs.len() == attempts + 2
                &&& attempts_failed(runs, attempts as int)
                &&& runs[attempts as int].0
                &&& runs[attempts + 1].0
                &&& final(project).messages()[old(project).messages().len() + attempts + 1]
                    == message_or(
                    final(refactorer).replies().last().commit_message,
                    REFACTORER_DEFAULT_MESSAGE@,
                )
                &&& final(project).snapshots().len() == old(project).snapshots().len() + attempts + 2
                &&& final(project).snapshots().subrange(0, old(project).snapshots().len() as int)
                    == old(project).snapshots()
                &&& final(project).history().len() == base + attempts + 2
                &&& final(project).history().subrange(0, base as int) == old(project).history()
                &&& final(tester).replies().len() == old(tester).replies().len() + 1
                &&& red_recorded(
                    final(project).messages(),
                    old(project).messages().len() as int,
                    final(project).snapshots(),
                    old(project).snapshots(),
                    old(project).files(),
                    final(tester).replies().last(),
                )
                &&& attempt_messages(
                    final(project).messages(),
                    old(project).messages().len() as int,
                    replies_since(old(implementor).replies(), final(implementor).replies()),
                    attempts as int,
                )
                &&& implementor_asked(
                    requests_since(old(implementor).requests(), final(implementor).requests()),
                    runs,
                    attempts as int,
                    self.cfg.implementor.system_prompt,
                )
                &&& final(refactorer).requests() == old(refactorer).requests().push(
                    ("refactorer"@, prompt_then(self.cfg.refactorer.system_prompt, REFACTORER_TASK@)),
                )
            },
            r matches Err(CycleError::RefactorRegressed { attempts, output }) ==> {
                let runs = runs_since(old(project).test_log(), final(project).test_log());
                let base = old(project).history().len();
                &&& 1 <= attempts <= self.cfg.implementor_max_attempts
                &&& runs.len() == attempts + 2
                &&& attempts_failed(runs, attempts as int)
                &&& runs[attempts as int].0
                &&& !runs[attempts + 1].0
                &&& final(project).files() == final(project).snapshots().last()
                &&& final(project).snapshots().len() == old(project).snapshots().len() + attempts + 1
                &&& final(project).snapshots().subrange(0, old(project).snapshots().len() as int)
                    == old(project).snapshots()
                &&& output@ == runs[attempts + 1].1
                &&& final(project).history().len() == base + attempts + 1
                &&& final(project).history().subrange(0, base as int) == old(project).history()
                &&& final(tester).replies().len() == old(tester).replies().len() + 1
                &&& red_recorded(
                    final(project).messages(),
                    old(project).messages().len() as int,
                    final(project).snapshots(),
                    old(project).snapshots(),
                    old(project).files(),
                    final(tester).replies().last(),
                )
                &&& attempt_messages(
                    final(project).messages(),
                    old(project).messages().len() as int,
                    replies_since(old(implementor).replies(), final(implementor).replies()),
                    attempts as int,
                )
                &&& implementor_asked(
                    requests_since(old(implementor).requests(), final(implementor).requests()),
                    runs,
                    attempts as int,
                    self.cfg.implementor.system_prompt,
                )
                &&& final(refactorer).requests() == old(refactorer).requests().push(
                    ("refactorer"@, prompt_then(self.cfg.refactorer.system_prompt, REFACTORER_TASK@)),
                )
            },
    {
        let ghost h0 = project.history();
        let ghost m0 = project.messages();
        let ghost t0 = project.test_log();
        let ghost f0 = project.failures();
        let ghost s0 = project.snapshots();
        let ghost i0 = implementor.requests();
        let ghost ir0 = implementor.replies();
        let ghost fl0 = project.files();
        if let Err(e) = lift(project.ensure_repo()) {
            return Err(e);
        }
        // Red
        let instructions = self.build_tester_instructions();
        if let Err(e) = self.propose_and_commit(
            project,
            tester,
            "tester",
            instructions.as_str(),
            TESTER_DEFAULT_MESSAGE,
            None,
        ) {
            return Err(e);
        }
        let tester_head = match lift(project.get_head_commit()) {
            Ok(v) => v,
            Err(e) => return Err(e),
        };
        let ghost h1 = project.history();
        let ghost tr = tester.replies();
        let ghost red_msg = project.messages()[m0.len() as int];
        let ghost red_tree = project.snapshots()[s0.len() as int];
        assert(red_recorded(project.messages(), m0.len() as int, project.snapshots(), s0, fl0, tr.last()));
        let (_red_passed, red_output) = match lift(project.run_tests(self.cfg.test_cmd.as_str())) {
            Ok(v) => v,
            Err(e) => return Err(e),
        };

        // Green
        let max = self.cfg.implementor_max_attempts;
        let mut last_fail_output = red_output;
        let mut phase = first_green_step(max);
        let mut done: usize = 0;
        assert(project.history().subrange(0, h1.len() as int) =~= h1);
        assert(project.test_log().subrange(0, t0.len() as int) =~= t0);
        assert(project.messages().subrange(0, m0.len() as int) =~= m0);
        assert(project.snapshots().subrange(0, s0.len() as int) =~= s0);
        assert(implementor.requests().subrange(0, i0.len() as int) =~= i0);
        assert(requests_since(i0, implementor.requests()) =~= Seq::empty());
        while phase == GreenNext::Retry
            invariant
                done <= max,
                max == self.cfg.implementor_max_attempts,
                phase == GreenNext::Retry ==> done < max,
                phase == GreenNext::Refactor ==> 1 <= done <= max,
                phase == GreenNext::Exhausted ==> done == max,
                h1 == h0.push(tester_head@),
                extends_without(project.history(), h1, done as int, tester_head@),
                project.failures() == f0,
                f0 == old(project).failures(),
                h0 == old(project).history(),
                tester.requests() == old(tester).requests().push(
                    ("tester"@, prompt_then(self.cfg.tester.system_prompt, TESTER_TASK@)),
                ),
                refactorer.requests() == old(refactorer).requests(),
                tester.failures() == old(tester).failures(),
                refactorer.failures() == old(refactorer).failures(),
                implementor.failures() == old(implementor).failures(),
                implementor.requests().subrange(0, i0.len() as int) == i0,
                implementor.requests().len() >= i0.len(),
                i0 == old(implementor).requests(),
                ir0 == old(implementor).replies(),
                fl0 == old(project).files(),
                tester.replies() == tr,
                tr.len() == old(tester).replies().len() + 1,
                refactorer.replies() == old(refactorer).replies(),
                implementor.replies().len() == ir0.len() + done,
                implementor.replies().subrange(0, ir0.len() as int) == ir0,
                project.messages()[m0.len() as int] == red_msg,
                project.snapshots()[s0.len() as int] == red_tree,
                red_recorded(project.messages(), m0.len() as int, project.snapshots(), s0, fl0, tr.last()),
                project.test_log().len() == t0.len() + 1 + done,
                project.test_log().subrange(0, t0.len() as int) == t0,
                t0 == old(project).test_log(),
                attempts_failed(runs_since(t0, project.test_log()), done as int),
                phase == GreenNext::Refactor ==> runs_since(t0, project.test_log())[done as int].0,
                phase != GreenNext::Refactor ==> attempts_failed(
                    runs_since(t0, project.test_log()),
                    done + 1,
                ),
                phase == GreenNext::Retry ==> last_fail_output@ == runs_since(
                    t0,
                    project.test_log(),
                )[done as int].1,
                project.messages().len() == m0.len() + 1 + done,
                project.messages().subrange(0, m0.len() as int) == m0,
                m0 == old(project).messages(),
                s0 == old(project).snapshots(),
                project.branches() == old(project).branches(),
                forall|j: int|
                    h1.len() <= j < project.history().len() ==> !h1.contains(
                        #[trigger] project.history()[j],
                    ),
                project.snapshots().len() == s0.len() + 1 + done,
                project.snapshots().subrange(0, s0.len() as int) == s0,
                attempt_messages(
                    project.messages(),
                    m0.len() as int,
                    replies_since(ir0, implementor.replies()),
                    done as int,
                ),
                implementor_asked(
                    requests_since(i0, implementor.requests()),
                    runs_since(t0, project.test_log()),
                    done as int,
                    self.cfg.implementor.system_prompt,
                ),
            decreases max - done,
        {
            let attempt = done + 1;
            let ghost before = project.history();
            let ghost log_start = project.test_log();
            let ghost msgs_start = project.messages();
            let ghost reqs_start = implementor.requests();
            let ghost snaps_start = project.snapshots();
            let ghost rep_start = implementor.replies();
            let instructions = self.build_implementor_instructions(last_fail_output.as_str());
            if let Err(e) = self.propose_and_commit(
                project,
                implementor,
                "implementor",
                instructions.as_str(),
                IMPLEMENTOR_DEFAULT_MESSAGE,
                Some(attempt),
            ) {
                proof {
                    assert(requests_since(i0, reqs_start).len() == done);
                    assert(reqs_start.len() == i0.len() + done);
                    assert(log_start.len() == t0.len() + 1 + done);
                }
                return Err(e);
            }
            proof {
                assert(before[h1.len() - 1] == h1[h1.len() - 1]);
                assert(before.contains(tester_head@));
                assert forall|x: Seq<char>| h1.contains(x) implies before.contains(x) by {
                    let i = choose|i: int| 0 <= i < h1.len() && h1[i] == x;
                    assert(before[i] == before.subrange(0, h1.len() as int)[i]);
                }
                assert(project.history().subrange(0, h1.len() as int) =~= before.subrange(
                    0,
                    h1.len() as int,
                ));
                assert(project.messages().subrange(0, m0.len() as int) =~= msgs_start.subrange(
                    0,
                    m0.len() as int,
                ));
                assert(project.snapshots().subrange(0, s0.len() as int) =~= snaps_start.subrange(
                    0,
                    s0.len() as int,
                ));
                assert(implementor.requests().subrange(0, i0.len() as int) =~= reqs_start.subrange(
                    0,
                    i0.len() as int,
                ));
                assert(requests_since(i0, implementor.requests()) =~= requests_since(
                    i0,
                    reqs_start,
                ).push(("implementor"@, instructions@)));
                let m = project.messages();
                let rs = replies_since(ir0, implementor.replies());
                assert(implementor.replies() =~= rep_start.push(implementor.replies().last()));
                assert(implementor.replies().subrange(0, ir0.len() as int) =~= rep_start.subrange(
                    0,
                    ir0.len() as int,
                ));
                assert(rs =~= replies_since(ir0, rep_start).push(implementor.replies().last()));
                assert forall|k: int| 1 <= k <= attempt implies #[trigger] m[m0.len() + k]
                    == commit_text(rs[k - 1].commit_message, IMPLEMENTOR_DEFAULT_MESSAGE@, Some(k as usize)) by {
                    if k < attempt {
                        assert(m[m0.len() + k] == msgs_start[m0.len() + k]);
                        assert(rs[k - 1] == replies_since(ir0, rep_start)[k - 1]);
                    }
                }
                assert(red_recorded(project.messages(), m0.len() as int, project.snapshots(), s0, fl0, tr.last()));
            }
            let (passed, output) = match lift(project.run_tests(self.cfg.test_cmd.as_str())) {
                Ok(v) => v,
                Err(e) => return Err(e),
            };
            proof {
                assert(project.test_log().subrange(0, t0.len() as int) =~= log_start.subrange(
                    0,
                    t0.len() as int,
                ));
                assert(runs_since(t0, project.test_log()) =~= runs_since(t0, log_start).push(
                    (passed, output@),
                ));
            }
            phase = after_green_run(attempt, max, passed);
            done = attempt;
            if phase == GreenNext::Retry {
                last_fail_output = output;
            }
        }

        if phase == GreenNext::Exhausted {
            // Keep the failed attempts on a branch if possible, then go back to red.
            let ghost h = project.history();
            let ghost b0 = project.branches();
            if let Some(stamp) = timestamp_now() {
                let branch = preservation_branch_name(stamp.as_str());
                let made = project.create_branch_at_head(branch.as_str());
                proof {
                    if made is Ok {
                        if max >= 1 {
                            assert(h.last() == h[h.len() - 1]);
                            assert(!h1.contains(h.last()));
                        }
                    }
                }
            }
            let ghost sn = project.snapshots();
            if let Err(e) = lift(project.reset_hard_to(tester_head.as_str())) {
                return Err(e);
            }
            proof {
                let k = choose|k: int|
                    latest_at(h, tester_head@, k) && project.history() == h.take(k)
                        && project.snapshots() == sn.take(k) && project.files() == sn[k - 1];
                assert(h[h1.len() - 1] == h1[h1.len() - 1]);
                assert(k == h1.len());
                assert(project.history() =~= h1);
                if s0.len() == h0.len() {
                    assert(project.snapshots().len() == k);
                    assert(project.snapshots().subrange(0, s0.len() as int) =~= sn.subrange(
                        0,
                        s0.len() as int,
                    ));
                }
            }
            return Ok(CycleOutcome::Exhausted { tester_head });
        }

        // Refactor
        let succeeded = done;
        let ghost hg = project.history();
        let ghost mg = project.messages();
        let ghost sg = project.snapshots();
        let ghost log_green = project.test_log();
        let instructions = self.build_refactorer_instructions();
        if let Err(e) = self.propose_and_commit(
            project,
            refactorer,
            "refactorer",
            instructions.as_str(),
            REFACTORER_DEFAULT_MESSAGE,
            None,
        ) {
            return Err(e);
        }
        let (passed, output) = match lift(project.run_tests(self.cfg.test_cmd.as_str())) {
            Ok(v) => v,
            Err(e) => return Err(e),
        };
        proof {
            assert(runs_since(t0, project.test_log()) =~= runs_since(t0, log_green).push(
                (passed, output@),
            ));
            assert(hg.subrange(0, h0.len() as int) =~= h1.subrange(0, h0.len() as int));
            assert(h1.subrange(0, h0.len() as int) =~= h0);
            assert(project.snapshots().subrange(0, s0.len() as int) =~= sg.subrange(
                0,
                s0.len() as int,
            ));
            assert(project.history().subrange(0, h0.len() as int) =~= hg.subrange(
                0,
                h0.len() as int,
            ));
            let m = project.messages();
            let rs = replies_since(ir0, implementor.replies());
            assert forall|k: int| 1 <= k <= succeeded implies #[trigger] m[m0.len() + k]
                == commit_text(rs[k - 1].commit_message, IMPLEMENTOR_DEFAULT_MESSAGE@, Some(k as usize)) by {
                assert(m[m0.len() + k] == mg[m0.len() + k]);
            }
            assert(red_recorded(project.messages(), m0.len() as int, project.snapshots(), s0, fl0, tr.last()));
        }
        let verdict = after_refactor_run(passed, succeeded, output);
        if verdict.is_err() {
            if let Err(e) = lift(project.reset_hard_head_minus_one()) {
                return Err(e);
            }
            proof {
                assert(project.history() =~= hg);
                assert(project.snapshots() =~= sg);
                let m = project.messages();
                let rs = replies_since(ir0, implementor.replies());
                assert forall|k: int| 1 <= k <= succeeded implies #[trigger] m[m0.len() + k]
                    == commit_text(rs[k - 1].commit_message, IMPLEMENTOR_DEFAULT_MESSAGE@, Some(k as usize)) by {
                    assert(m[m0.len() + k] == mg[m0.len() + k]);
                }
                assert(red_recorded(project.messages(), m0.len() as int, project.snapshots(), s0, fl0, tr.last()));
            }
        }
        verdict
    }
}

} // verus!
