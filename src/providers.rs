use vstd::prelude::*;
use crate::text::{join2, join3, str_eq, trim_end_slashes, trim_trailing_slashes};

verus! {

/// Which kind of backend serves a role.
#[derive(Clone, Copy, Debug, PartialEq, Eq, Structural)]
pub enum ProviderKind {
    OpenAi,
    Gemini,
    Mock,
}

/// How a file edit is applied.
#[derive(Clone, Copy, Debug, PartialEq, Eq, Structural)]
pub enum EditMode {
    /// Replace the file's content entirely.
    Rewrite,
    /// Create the file if absent, then add the content at its end.
    Append,
}

/// One file change proposed by a backend.
#[derive(Clone, Debug)]
pub struct FileEdit {
    /// Path relative to the project root.
    pub path: String,
    pub mode: EditMode,
    /// Full new content (rewrite) or the text to add (append).
    pub content: String,
}

/// The structured edit set a backend returns.
#[derive(Clone, Debug)]
pub struct LlmPatch {
    /// Applied in order.
    pub files: Vec<FileEdit>,
    pub commit_message: Option<String>,
    pub notes: Option<String>,
}

/// Nesting depth of braces after the first `k` characters. A closing brace at
/// depth zero matches nothing and is ignored.
pub open spec fn brace_balance(s: Seq<char>, k: int) -> int
    decreases k,
{
    if k <= 0 {
        0
    } else if s[k - 1] == '{' {
        brace_balance(s, k - 1) + 1
    } else if s[k - 1] == '}' && brace_balance(s, k - 1) > 0 {
        brace_balance(s, k - 1) - 1
    } else {
        brace_balance(s, k - 1)
    }
}

/// A closing brace at `j` that brings the balance from one back to zero.
pub open spec fn closes_top_level(s: Seq<char>, j: int) -> bool {
    0 <= j < s.len() && s[j] == '}' && brace_balance(s, j) == 1
}

/// An opening brace at `i` that leaves the balance at zero to enter level one.
pub open spec fn opens_top_level(s: Seq<char>, i: int) -> bool {
    0 <= i < s.len() && s[i] == '{' && brace_balance(s, i) == 0
}

/// `st` is the last top-level opening brace before `j`.
pub open spec fn last_open_before(s: Seq<char>, st: int, j: int) -> bool {
    &&& 0 <= st < j
    &&& opens_top_level(s, st)
    &&& forall|i: int| st < i < j ==> !opens_top_level(s, i)
}

/// `span` runs from the last top-level opening brace to the first closing
/// brace that brings the balance of `s` back to zero.
pub open spec fn is_first_object(s: Seq<char>, span: Seq<char>) -> bool {
    exists|st: int, j: int|
        {
            &&& closes_top_level(s, j)
            &&& forall|k: int| 0 <= k < j ==> !closes_top_level(s, k)
            &&& last_open_before(s, st, j)
            &&& span == s.subrange(st, j + 1)
        }
}

proof fn lemma_balance_step(s: Seq<char>, k: int)
    requires
        0 <= k < s.len(),
    ensures
        brace_balance(s, k) >= 0,
        brace_balance(s, k + 1) == if s[k] == '{' {
            brace_balance(s, k) + 1
        } else if s[k] == '}' && brace_balance(s, k) > 0 {
            brace_balance(s, k) - 1
        } else {
            brace_balance(s, k)
        },
    decreases k,
{
    if k > 0 {
        lemma_balance_step(s, k - 1);
    }
}

/// Finds the first balanced top-level `{ ... }` span of `s`: the span from the
/// last top-level opening brace up to the first closing brace that returns the
/// depth to zero. Closing braces that match no opening brace are skipped.
pub fn extract_json_object(s: &str) -> (r: Option<&str>)
    ensures
        r is None <==> forall|j: int| !closes_top_level(s@, j),
        r matches Some(span) ==> is_first_object(s@, span@),
{
    let n = s.unicode_len();
    let mut depth: usize = 0;
    let mut start: Option<usize> = None;
    let mut i: usize = 0;
    while i < n
        invariant
            n == s@.len(),
            i <= n,
            depth == brace_balance(s@, i as int),
            0 <= depth <= i as int,
            depth > 0 ==> start is Some,
            forall|k: int| 0 <= k < i ==> !closes_top_level(s@, k),
            start matches Some(st) ==> last_open_before(s@, st as int, i as int),
            start is None ==> forall|k: int| 0 <= k < i ==> !opens_top_level(s@, k),
        decreases n - i,
    {
        let c = s.get_char(i);
        proof {
            lemma_balance_step(s@, i as int);
        }
        if c == '{' {
            if depth == 0 {
                start = Some(i);
            }
            depth = depth + 1;
        } else if c == '}' && depth > 0 {
            depth = depth - 1;
            if depth == 0 {
                if let Some(st) = start {
                    assert(closes_top_level(s@, i as int));
                    return Some(s.substring_char(st, i + 1));
                }
            }
        }
        i = i + 1;
    }
    None
}

/// Settings of one backend.
#[derive(Clone, Debug)]
pub struct ProviderConfig {
    pub kind: ProviderKind,
    pub model: String,
    /// Base URL override for an OpenAI-compatible or Gemini endpoint.
    pub base_url: Option<String>,
    /// Name of the environment variable that holds the API key.
    pub api_key_env: Option<String>,
    /// Optional organization or project id header.
    pub organization: Option<String>,
    /// Optional custom API key header name.
    pub api_key_header: Option<String>,
    /// Optional API key prefix value.
    pub api_key_prefix: Option<String>,
}

/// A backend together with the role's own system prompt.
#[derive(Clone, Debug)]
pub struct RoleProviderConfig {
    pub provider: ProviderConfig,
    pub system_prompt: Option<String>,
}

/// Why a backend could not produce an edit set.
#[derive(Clone, Debug)]
pub struct ProviderError {
    pub message: String,
}

/// A model backend: given a role, a context text and instructions, it
/// proposes an edit set.
///
/// The default bodies of the spec functions are placeholders for
/// implementations compiled without verification; generic callers never see
/// them.
pub trait LlmProvider {
    /// Role and instructions of each request so far, oldest first.
    closed spec fn requests(&self) -> Seq<(Seq<char>, Seq<char>)> {
        Seq::empty()
    }

    /// Edit sets returned so far, oldest first.
    closed spec fn replies(&self) -> Seq<LlmPatch> {
        Seq::empty()
    }

    /// How many requests have failed so far.
    closed spec fn failures(&self) -> nat {
        0
    }

    fn generate_patch(&mut self, role: &str, context: &str, instructions: &str) -> (r: Result<
        LlmPatch,
        ProviderError,
    >)
        ensures
            final(self).requests() == old(self).requests().push((role@, instructions@)),
            r matches Ok(p) ==> final(self).replies() == old(self).replies().push(p),
            r is Err ==> final(self).replies() == old(self).replies(),
            final(self).failures() == if r is Err {
                old(self).failures() + 1
            } else {
                old(self).failures()
            },
    ;
}

/// Path that the mock backend appends to.
pub const MOCK_LOG_PATH: &'static str = "red-green-refactor-mock.log";

/// Text that the mock backend appends for a role.
pub open spec fn mock_line(role: Seq<char>) -> Seq<char> {
    if role == "tester"@ {
        "// TODO: add a failing test\n"@
    } else if role == "implementor"@ {
        "// TODO: implement feature to make tests pass\n"@
    } else {
        "// TODO: refactor without changing behavior\n"@
    }
}

/// A backend that needs no network: it appends one line to a log file.
#[derive(Clone, Copy)]
pub struct MockProvider {
    requests: Ghost<Seq<(Seq<char>, Seq<char>)>>,
    replies: Ghost<Seq<LlmPatch>>,
}

impl MockProvider {
    pub fn new() -> (r: Self)
        ensures
            r.requests() == Seq::<(Seq<char>, Seq<char>)>::empty(),
            r.replies() == Seq::<LlmPatch>::empty(),
    {
        MockProvider { requests: Ghost(Seq::empty()), replies: Ghost(Seq::empty()) }
    }

    /// The single append edit and commit message the mock proposes for `role`.
    pub fn mock_patch(role: &str) -> (r: LlmPatch)
        ensures
            r.files@.len() == 1,
            r.files@[0].path@ == MOCK_LOG_PATH@,
            r.files@[0].mode == EditMode::Append,
            r.files@[0].content@ == mock_line(role@),
            r.commit_message matches Some(m) && m@ == "chore("@ + role@ + "): mock patch"@,
            r.notes is None,
    {
        let line = if str_eq(role, "tester") {
            "// TODO: add a failing test\n"
        } else if str_eq(role, "implementor") {
            "// TODO: implement feature to make tests pass\n"
        } else {
            "// TODO: refactor without changing behavior\n"
        };
        let edit = FileEdit {
            path: String::from_str(MOCK_LOG_PATH),
            mode: EditMode::Append,
            content: String::from_str(line),
        };
        let mut files: Vec<FileEdit> = Vec::new();
        files.push(edit);
        LlmPatch {
            files,
            commit_message: Some(join3("chore(", role, "): mock patch")),
            notes: None,
        }
    }
}

impl LlmProvider for MockProvider {
    closed spec fn requests(&self) -> Seq<(Seq<char>, Seq<char>)> {
        self.requests@
    }

    closed spec fn replies(&self) -> Seq<LlmPatch> {
        self.replies@
    }

    open spec fn failures(&self) -> nat {
        0
    }

    fn generate_patch(&mut self, role: &str, context: &str, instructions: &str) -> (r: Result<
        LlmPatch,
        ProviderError,
    >) {
        proof {
            self.requests@ = self.requests@.push((role@, instructions@));
        }
        let p = MockProvider::mock_patch(role);
        proof {
            self.replies@ = self.replies@.push(p);
        }
        Ok(p)
    }
}

/// Where an HTTP backend is reached and which key it reads.
#[derive(Clone, Debug)]
pub struct Endpoint {
    pub model: String,
    /// Base URL, the configured one or the kind's default.
    pub base: String,
    /// Environment variable holding the API key, the configured one or the kind's default.
    pub api_key_env: String,
}

/// A backend chosen by configuration.
#[derive(Clone)]
pub enum Backend {
    OpenAi(Endpoint),
    Gemini(Endpoint),
    Mock(MockProvider),
}

pub const OPENAI_DEFAULT_BASE: &'static str = "https://api.openai.com/v1";
pub const OPENAI_DEFAULT_KEY_ENV: &'static str = "OPENAI_API_KEY";
pub const GEMINI_DEFAULT_BASE: &'static str = "https://generativelanguage.googleapis.com";
pub const GEMINI_DEFAULT_KEY_ENV: &'static str = "GEMINI_API_KEY";

/// The configured value, or the default when none is set.
pub open spec fn or_default(v: Option<String>, d: Seq<char>) -> Seq<char> {
    match v {
        Some(s) => s@,
        None => d,
    }
}

fn value_or(v: &Option<String>, d: &str) -> (r: String)
    ensures
        r@ == or_default(*v, d@),
{
    match v {
        Some(s) => s.clone(),
        None => String::from_str(d),
    }
}

/// The endpoint an HTTP backend of this configuration uses.
pub open spec fn endpoint_matches(e: Endpoint, cfg: ProviderConfig, base: Seq<char>, env: Seq<char>) -> bool {
    &&& e.model@ == cfg.model@
    &&& e.base@ == or_default(cfg.base_url, base)
    &&& e.api_key_env@ == or_default(cfg.api_key_env, env)
}

/// `b` is the backend that configuration `cfg` selects.
pub open spec fn built_from(b: Backend, cfg: ProviderConfig) -> bool {
    match cfg.kind {
        ProviderKind::OpenAi => b matches Backend::OpenAi(e) && endpoint_matches(
            e,
            cfg,
            OPENAI_DEFAULT_BASE@,
            OPENAI_DEFAULT_KEY_ENV@,
        ),
        ProviderKind::Gemini => b matches Backend::Gemini(e) && endpoint_matches(
            e,
            cfg,
            GEMINI_DEFAULT_BASE@,
            GEMINI_DEFAULT_KEY_ENV@,
        ),
        ProviderKind::Mock => b is Mock,
    }
}

/// Builds backends from configuration.
pub struct ProviderFactory;

impl ProviderFactory {
    /// Selects the backend of `cfg.kind`, filling in the kind's default base URL
    /// and key variable where the configuration leaves them out.
    pub fn build(cfg: &ProviderConfig) -> (r: Backend)
        ensures
            built_from(r, *cfg),
    {
        match cfg.kind {
            ProviderKind::OpenAi => Backend::OpenAi(
                Endpoint {
                    model: cfg.model.clone(),
                    base: value_or(&cfg.base_url, OPENAI_DEFAULT_BASE),
                    api_key_env: value_or(&cfg.api_key_env, OPENAI_DEFAULT_KEY_ENV),
                },
            ),
            ProviderKind::Gemini => Backend::Gemini(
                Endpoint {
                    model: cfg.model.clone(),
                    base: value_or(&cfg.base_url, GEMINI_DEFAULT_BASE),
                    api_key_env: value_or(&cfg.api_key_env, GEMINI_DEFAULT_KEY_ENV),
                },
            ),
            ProviderKind::Mock => Backend::Mock(MockProvider::new()),
        }
    }
}

/// The system text both HTTP backends send ahead of the instructions.
pub const AGENT_SYSTEM_PROMPT: &'static str = "You are a code-modifying agent. Respond ONLY with a valid JSON object matching schema LlmPatch { files:[{path, mode: 'rewrite'|'append', content}], commit_message?, notes? }. No prose.";

/// URL of the chat completion call of an OpenAI-compatible endpoint.
pub fn chat_completions_url(base: &str) -> (r: String)
    ensures
        r@ == trim_end_slashes(base@) + "/chat/completions"@,
{
    join2(trim_trailing_slashes(base), "/chat/completions")
}

/// URL of the content generation call of a Gemini endpoint.
pub fn generate_content_url(base: &str, model: &str, api_key: &str) -> (r: String)
    ensures
        r@ == trim_end_slashes(base@) + "/v1beta/models/"@ + model@ + ":generateContent?key="@
            + api_key@,
{
    let mut s = join3(trim_trailing_slashes(base), "/v1beta/models/", model);
    s.append(":generateContent?key=");
    s.append(api_key);
    s
}

/// The user message an OpenAI-compatible endpoint receives.
pub fn chat_user_message(instructions: &str, context: &str) -> (r: String)
    ensures
        r@ == "Instructions:\n"@ + instructions@ + "\n\nProject context (truncated):\n"@ + context@,
{
    let mut s = join3("Instructions:\n", instructions, "\n\nProject context (truncated):\n");
    s.append(context);
    s
}

/// The user message a Gemini endpoint receives.
pub fn gemini_user_message(role: &str, instructions: &str, context: &str) -> (r: String)
    ensures
        r@ == "Role: "@ + role@ + "\nInstructions:\n"@ + instructions@
            + "\n\nProject context (truncated):\n"@ + context@,
{
    let mut s = join3("Role: ", role, "\nInstructions:\n");
    s.append(instructions);
    s.append("\n\nProject context (truncated):\n");
    s.append(context);
    s
}

/// The text handed to the JSON parser: the first balanced object in a model's
/// reply, or the whole reply when it holds none.
pub fn patch_json_text(reply: &str) -> (r: &str)
    ensures
        (forall|j: int| !closes_top_level(reply@, j)) ==> r@ == reply@,
        (exists|j: int| closes_top_level(reply@, j)) ==> is_first_object(reply@, r@),
{
    match extract_json_object(reply) {
        Some(span) => span,
        None => reply,
    }
}

} // verus!
