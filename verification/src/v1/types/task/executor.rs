//! Executors declared within tasks.

use vstd::prelude::*;

verus! {

/// An executor: a single command run in a container image. Executors run
/// sequentially as they are given in the task.
#[derive(Clone, Debug, Default, Eq, PartialEq)]
pub struct Executor {
    /// The image.
    pub image: String,

    /// The command.
    pub command: Vec<String>,

    /// The working directory.
    pub workdir: Option<String>,

    /// The path from which to pipe the standard input stream.
    pub stdin: Option<String>,

    /// The path to pipe the standard output stream to.
    pub stdout: Option<String>,

    /// The path to pipe the standard error stream to.
    pub stderr: Option<String>,

    /// The environment variables, as name/value pairs.
    pub env: Option<Vec<(String, String)>>,

    /// If set, the runner records error exit codes but continues on to
    /// the next executor instead of stopping at the first error.
    pub ignore_error: Option<bool>,
}

/// A log for an [`Executor`].
#[derive(Clone, Debug, Default, Eq, PartialEq)]
pub struct Log {
    /// The start time, as an RFC 3339 text.
    pub start_time: Option<String>,

    /// The end time, as an RFC 3339 text.
    pub end_time: Option<String>,

    /// The value of the standard output stream.
    pub stdout: Option<String>,

    /// The value of the standard error stream.
    pub stderr: Option<String>,

    /// The exit code.
    pub exit_code: Option<u32>,
}

} // verus!
