//! Test-driven development loop driven by three pluggable model roles:
//! a test author, an implementer and a refactorer.
//!
//! - `providers`: edit sets, backend configuration and selection, the mock
//!   backend, and the text handling around HTTP backends.
//! - `project`: the project as the controller sees it (files, history, tests).
//! - `orchestrator`: configuration and the red, green and refactor cycle.
//! - `workspace`: the meaning of edits, an in-memory file tree, and the
//!   selection of the context given to models.
//! - `vcs`: the git invocations behind each history operation.
//! - `sim`: a project held in memory.
//! - `text`: string helpers.

pub mod providers;
pub mod text;
pub mod project;
pub mod orchestrator;
pub mod workspace;
pub mod sim;
pub mod vcs;
