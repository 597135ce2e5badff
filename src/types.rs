//! Request and result schemas shared by the worker and its callers.
use vstd::prelude::*;

verus! {

/// A file staged into the scratch directory before any execution runs.
#[derive(Debug, Clone)]
pub enum File {
    /// Inline bytes written to the scratch directory as `name`.
    Local { name: String, content: Vec<u8> },
    /// A blob fetched from the store under `id`, written as `name`.
    Remote { name: String, id: String },
}

/// One end of a directive: where bytes come from, or where they go.
#[derive(Debug, Clone)]
pub enum FilePath {
    /// A file; `executable` turns on the execute bits.
    Local { name: String, executable: bool },
    /// Literal bytes; a source only.
    Data { content: Vec<u8> },
    /// A blob of the store.
    Remote { id: String },
    /// The captured standard output, cut to `max_size` bytes when set; a source only.
    Stdout { max_size: Option<u64> },
    /// The captured standard error, cut to `max_size` bytes when set; a source only.
    Stderr { max_size: Option<u64> },
    /// The child's standard input; a sink of `copy_in` only.
    Stdin {},
    /// A buffer of the worker, kept across the executions of one request.
    Tmp { id: u64 },
}

/// A directed edge from a source to a sink.
#[derive(Debug, Clone)]
pub struct ExecutionTransfer {
    pub from: FilePath,
    pub to: FilePath,
}

/// One program run with its limits and file routing.
#[derive(Debug, Clone)]
pub struct Execution {
    /// Absolute path of the program inside the sandbox.
    pub program: String,
    pub args: Vec<String>,
    /// CPU seconds.
    pub time_limit: u64,
    /// Seconds of wall-clock time.
    pub wall_time_limit: u64,
    /// Address-space bytes.
    pub memory_limit: u64,
    /// Directives run after the child, only when it exited with code 0.
    pub copy_out: Vec<ExecutionTransfer>,
    /// Directives run before the child is spawned.
    pub copy_in: Vec<ExecutionTransfer>,
    /// Sources returned with the result, in this order.
    pub return_files: Vec<FilePath>,
    /// Stop the batch when this execution exits with a non-zero code.
    pub die_on_error: bool,
    /// Normalise stdout; absent means on.
    pub autofix: Option<bool>,
}

/// A named file of a result.
#[derive(Debug, Clone)]
pub struct ExecutionFile {
    pub name: String,
    pub content: Vec<u8>,
}

/// What one execution produced.
#[derive(Debug, Clone)]
pub struct ExecutionResult {
    pub exit_code: i32,
    /// User plus system CPU time, in milliseconds.
    pub time_used: u128,
    /// Resident set size, in kilobytes.
    pub memory_used: u64,
    pub return_files: Vec<ExecutionFile>,
}

/// A failure that ends one execution.
#[derive(Debug, Clone)]
pub struct ExecutionError {
    pub message: String,
}

/// A batch: files to stage, then executions to run in order.
#[derive(Debug, Clone)]
pub struct ExecutionRequest {
    pub executions: Vec<Execution>,
    pub files: Vec<File>,
}

impl Execution {
    /// Whether stdout is normalised: `autofix` absent or true.
    pub open spec fn fixes_output(&self) -> bool {
        match self.autofix {
            Some(b) => b,
            None => true,
        }
    }
}

} // verus!
