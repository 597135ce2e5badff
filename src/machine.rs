//! The steps of one execution as a state machine. The worker decides; its
//! caller performs each action (file and blob I/O, spawning the child) and
//! reports what came of it as the next event.
use vstd::prelude::*;
use crate::normalize::normalized;
use crate::text::{decimal, joined, truncated};
use crate::types::{Execution, ExecutionFile, ExecutionTransfer, FilePath};

verus! {

/// Where the run stands.
#[derive(Debug, Clone, Copy, PartialEq, Eq, Structural)]
pub enum Stage {
    /// Staging `copy_in` directives.
    CopyIn,
    /// The child is running.
    Running,
    /// Draining `copy_out` directives.
    CopyOut,
    /// Collecting `return_files`.
    Returns,
    /// The outcome has been handed out.
    Done,
}

/// What the run waits for from its caller.
#[derive(Debug, Clone, Copy, PartialEq, Eq, Structural)]
pub enum Pending {
    Nothing,
    Load,
    Store,
    Exit,
}

/// A place outside the worker that bytes are read from or written to.
#[derive(Debug, Clone)]
pub enum Location {
    /// A host path, exactly as the caller named it.
    Host { path: String },
    /// A path under the scratch directory, already joined to it.
    Scratch { path: String },
    /// A blob of the store.
    Blob { id: String },
}

/// CPU time of the child as the kernel reported it, in milliseconds.
#[derive(Debug, Clone, Copy)]
pub struct CpuTime {
    pub user_ms: u64,
    pub system_ms: u64,
}

/// What the caller observed of the finished child.
#[derive(Debug, Clone)]
pub struct ProcessOutput {
    pub code: i32,
    pub stdout: Vec<u8>,
    pub stderr: Vec<u8>,
    /// Absent when resource usage could not be collected.
    pub cpu: Option<CpuTime>,
    /// `VmRSS` in kilobytes; absent when it could not be read.
    pub vmrss_kb: Option<u64>,
}

/// What the caller reports after performing the last action.
#[derive(Debug, Clone)]
pub enum Event {
    /// The action needed no answer, or the store succeeded.
    Done,
    /// The bytes that a load produced.
    Loaded { content: Vec<u8> },
    /// A load or a store failed.
    Failed { message: String },
    /// The child finished, by itself or at its wall-time limit.
    Exited { output: ProcessOutput },
    SpawnFailed { message: String },
    WaitFailed { message: String },
}

/// The outputs of the child, as the later directives see them.
#[derive(Debug, Clone)]
pub struct Captured {
    pub code: i32,
    /// Already normalised when the execution asks for it.
    pub stdout: Vec<u8>,
    pub stderr: Vec<u8>,
    pub time_used: u128,
    pub memory_used: u64,
}

// ---------------------------------------------------------------------------
// Mathematical models

pub enum LocView {
    Host(Seq<char>),
    Scratch(Seq<char>),
    Blob(Seq<char>),
}

pub struct OutputView {
    pub code: i32,
    pub stdout: Seq<u8>,
    pub stderr: Seq<u8>,
    pub cpu: Option<(u64, u64)>,
    pub vmrss_kb: Option<u64>,
}

pub enum EventView {
    Done,
    Loaded(Seq<u8>),
    Failed(Seq<char>),
    Exited(OutputView),
    SpawnFailed(Seq<char>),
    WaitFailed(Seq<char>),
}

pub struct CapturedView {
    pub code: i32,
    pub stdout: Seq<u8>,
    pub stderr: Seq<u8>,
    pub time_used: u128,
    pub memory_used: u64,
}

pub struct RunView {
    pub stage: Stage,
    pub pending: Pending,
    pub cursor: nat,
    pub loaded: Option<Seq<u8>>,
    pub stdin: Option<Seq<u8>>,
    pub captured: Option<CapturedView>,
    pub files: Seq<(Seq<char>, Seq<u8>)>,
}

pub struct ResultView {
    pub exit_code: i32,
    pub time_used: u128,
    pub memory_used: u64,
    pub files: Seq<(Seq<char>, Seq<u8>)>,
}

pub enum ActionView {
    Proceed,
    Load(LocView, bool),
    Store(LocView, Seq<u8>, bool),
    Launch(Option<Seq<u8>>),
    Finish(Result<ResultView, Seq<char>>),
    Idle,
}

/// How a source resolves: to bytes at hand, to a load, or not at all.
pub enum SourceView {
    Ready(Seq<u8>),
    Fetch(LocView, bool),
    Refused,
}

/// Where a sink sends its bytes.
pub enum SinkView {
    ToTmp(u64),
    ToStdin,
    Out(LocView, bool),
    Refused,
}

pub open spec fn bytes_opt(o: Option<Vec<u8>>) -> Option<Seq<u8>> {
    match o {
        Some(v) => Some(v@),
        None => None,
    }
}

pub open spec fn files_view(fs: Seq<ExecutionFile>) -> Seq<(Seq<char>, Seq<u8>)> {
    fs.map_values(|f: ExecutionFile| (f.name@, f.content@))
}

impl Location {
    pub open spec fn view(&self) -> LocView {
        match self {
            Location::Host { path } => LocView::Host(path@),
            Location::Scratch { path } => LocView::Scratch(path@),
            Location::Blob { id } => LocView::Blob(id@),
        }
    }
}

impl ProcessOutput {
    pub open spec fn view(&self) -> OutputView {
        OutputView {
            code: self.code,
            stdout: self.stdout@,
            stderr: self.stderr@,
            cpu: match self.cpu {
                Some(t) => Some((t.user_ms, t.system_ms)),
                None => None,
            },
            vmrss_kb: self.vmrss_kb,
        }
    }
}

impl Event {
    pub open spec fn view(&self) -> EventView {
        match self {
            Event::Done => EventView::Done,
            Event::Loaded { content } => EventView::Loaded(content@),
            Event::Failed { message } => EventView::Failed(message@),
            Event::Exited { output } => EventView::Exited(output.view()),
            Event::SpawnFailed { message } => EventView::SpawnFailed(message@),
            Event::WaitFailed { message } => EventView::WaitFailed(message@),
        }
    }
}

impl Captured {
    pub open spec fn view(&self) -> CapturedView {
        CapturedView {
            code: self.code,
            stdout: self.stdout@,
            stderr: self.stderr@,
            time_used: self.time_used,
            memory_used: self.memory_used,
        }
    }
}

pub open spec fn captured_opt(c: Option<Captured>) -> Option<CapturedView> {
    match c {
        Some(c) => Some(c.view()),
        None => None,
    }
}

// ---------------------------------------------------------------------------
// The rules

/// What the child's outputs look like to the directives that follow it.
pub open spec fn capture(e: Execution, o: OutputView) -> CapturedView {
    CapturedView {
        code: o.code,
        stdout: if e.fixes_output() { normalized(o.stdout) } else { o.stdout },
        stderr: o.stderr,
        time_used: match o.cpu {
            Some((u, s)) => (u + s) as u128,
            None => 0,
        },
        memory_used: match o.vmrss_kb {
            Some(k) => k,
            None => 0,
        },
    }
}

/// Bytes of the tmp buffer `id`; a missing buffer reads as empty.
pub open spec fn tmp_bytes(tmp: Map<u64, Seq<u8>>, id: u64) -> Seq<u8> {
    if tmp.contains_key(id) {
        tmp[id]
    } else {
        Seq::empty()
    }
}

/// How the source `from` resolves in stage `st` (`CopyIn`, `CopyOut` or `Returns`).
/// Before the child runs a `Local` source is a host path as given; after it,
/// a path under the scratch root.
pub open spec fn source_of(
    st: Stage,
    from: FilePath,
    tmp: Map<u64, Seq<u8>>,
    cap: Option<CapturedView>,
    root: Seq<char>,
) -> SourceView {
    match from {
        FilePath::Local { name, executable } => if st == Stage::CopyIn {
            SourceView::Fetch(LocView::Host(name@), executable)
        } else {
            SourceView::Fetch(LocView::Scratch(joined(root, name@)), executable)
        },
        FilePath::Data { content } => SourceView::Ready(content@),
        FilePath::Remote { id } => SourceView::Fetch(LocView::Blob(id@), false),
        FilePath::Tmp { id } => SourceView::Ready(tmp_bytes(tmp, id)),
        FilePath::Stdout { max_size } => match cap {
            Some(c) => if st != Stage::CopyIn {
                SourceView::Ready(truncated(c.stdout, max_size))
            } else {
                SourceView::Refused
            },
            None => SourceView::Refused,
        },
        FilePath::Stderr { max_size } => match cap {
            Some(c) => if st != Stage::CopyIn {
                SourceView::Ready(truncated(c.stderr, max_size))
            } else {
                SourceView::Refused
            },
            None => SourceView::Refused,
        },
        FilePath::Stdin {} => SourceView::Refused,
    }
}

/// Where the sink `to` of a directive of stage `st` sends bytes.
pub open spec fn sink_of(st: Stage, to: FilePath, root: Seq<char>) -> SinkView {
    match to {
        FilePath::Local { name, executable } => SinkView::Out(LocView::Scratch(joined(root, name@)), executable),
        FilePath::Remote { id } => SinkView::Out(LocView::Blob(id@), false),
        FilePath::Tmp { id } => SinkView::ToTmp(id),
        FilePath::Stdin {} => if st == Stage::CopyIn {
            SinkView::ToStdin
        } else {
            SinkView::Refused
        },
        _ => SinkView::Refused,
    }
}

/// Name under which a returned source appears in the result.
pub open spec fn entry_name(p: FilePath) -> Option<Seq<char>> {
    match p {
        FilePath::Local { name, executable: _ } => Some(name@),
        FilePath::Remote { id } => Some("remote_"@ + id@),
        FilePath::Stdout { max_size: _ } => Some("stdout"@),
        FilePath::Stderr { max_size: _ } => Some("stderr"@),
        FilePath::Tmp { id } => Some("tmp_"@ + decimal(id as nat)),
        _ => None,
    }
}

/// The message of a directive that the stage cannot perform.
pub open spec fn unsupported(st: Stage) -> Seq<char> {
    if st == Stage::CopyIn {
        "Unsupported file path for copy_in"@
    } else if st == Stage::CopyOut {
        "Unsupported file path for copy_out"@
    } else {
        "Unsupported file path for return_files"@
    }
}

pub open spec fn unexpected_event() -> Seq<char> {
    "Unexpected event for the pending action"@
}

/// The run ends with the error `msg`.
pub open spec fn fail(tmp: Map<u64, Seq<u8>>, r: RunView, msg: Seq<char>) -> (Map<u64, Seq<u8>>, RunView, ActionView) {
    (tmp, RunView { stage: Stage::Done, pending: Pending::Nothing, ..r }, ActionView::Finish(Err(msg)))
}

/// The directives of stage `st`.
pub open spec fn transfers(e: Execution, st: Stage) -> Seq<ExecutionTransfer> {
    if st == Stage::CopyIn {
        e.copy_in@
    } else {
        e.copy_out@
    }
}

/// One `copy_in` or `copy_out` directive: refuse a sink that the stage cannot
/// write, resolve the source unless a load already brought the bytes, then
/// hand them to the sink.
pub open spec fn transfer_step(
    root: Seq<char>,
    tmp: Map<u64, Seq<u8>>,
    d: ExecutionTransfer,
    r: RunView,
) -> (Map<u64, Seq<u8>>, RunView, ActionView) {
    let k = sink_of(r.stage, d.to, root);
    let src = match r.loaded {
        Some(b) => SourceView::Ready(b),
        None => source_of(r.stage, d.from, tmp, r.captured, root),
    };
    match k {
        SinkView::Refused => fail(tmp, r, unsupported(r.stage)),
        _ => match src {
            SourceView::Fetch(loc, x) => (tmp, RunView { pending: Pending::Load, ..r }, ActionView::Load(loc, x)),
            SourceView::Refused => fail(tmp, r, unsupported(r.stage)),
            SourceView::Ready(b) => {
                let next = RunView { cursor: r.cursor + 1, loaded: None, ..r };
                match k {
                    SinkView::ToTmp(id) => (tmp.insert(id, b), next, ActionView::Proceed),
                    SinkView::ToStdin => (tmp, RunView { stdin: Some(b), ..next }, ActionView::Proceed),
                    SinkView::Out(loc, x) => (tmp, RunView { pending: Pending::Store, ..next }, ActionView::Store(loc, b, x)),
                    SinkView::Refused => fail(tmp, r, unsupported(r.stage)),
                }
            },
        },
    }
}

/// One entry of `return_files`; a `Tmp` source is consumed.
pub open spec fn return_step(
    root: Seq<char>,
    tmp: Map<u64, Seq<u8>>,
    p: FilePath,
    r: RunView,
) -> (Map<u64, Seq<u8>>, RunView, ActionView) {
    match entry_name(p) {
        None => fail(tmp, r, unsupported(Stage::Returns)),
        Some(name) => {
            let src = match r.loaded {
                Some(b) => SourceView::Ready(b),
                None => source_of(Stage::Returns, p, tmp, r.captured, root),
            };
            match src {
                SourceView::Fetch(loc, x) => (tmp, RunView { pending: Pending::Load, ..r }, ActionView::Load(loc, x)),
                SourceView::Refused => fail(tmp, r, unsupported(Stage::Returns)),
                SourceView::Ready(b) => {
                    let tmp2 = match p {
                        FilePath::Tmp { id } => tmp.remove(id),
                        _ => tmp,
                    };
                    (tmp2, RunView { cursor: r.cursor + 1, loaded: None, files: r.files.push((name, b)), ..r }, ActionView::Proceed)
                },
            }
        },
    }
}

/// The result assembled once every entry of `return_files` is in.
pub open spec fn result_of(c: CapturedView, files: Seq<(Seq<char>, Seq<u8>)>) -> ResultView {
    ResultView { exit_code: c.code, time_used: c.time_used, memory_used: c.memory_used, files }
}

/// The next action when nothing is pending.
pub open spec fn act(
    root: Seq<char>,
    tmp: Map<u64, Seq<u8>>,
    e: Execution,
    r: RunView,
) -> (Map<u64, Seq<u8>>, RunView, ActionView) {
    match r.stage {
        Stage::CopyIn => if r.cursor < e.copy_in@.len() {
            transfer_step(root, tmp, e.copy_in@[r.cursor as int], r)
        } else {
            (tmp, RunView { stage: Stage::Running, pending: Pending::Exit, stdin: None, ..r }, ActionView::Launch(r.stdin))
        },
        Stage::CopyOut => if r.cursor < e.copy_out@.len() {
            transfer_step(root, tmp, e.copy_out@[r.cursor as int], r)
        } else {
            (tmp, RunView { stage: Stage::Returns, cursor: 0, ..r }, ActionView::Proceed)
        },
        Stage::Returns => if r.cursor < e.return_files@.len() {
            return_step(root, tmp, e.return_files@[r.cursor as int], r)
        } else {
            match r.captured {
                Some(c) => (tmp, RunView { stage: Stage::Done, files: seq![], ..r }, ActionView::Finish(Ok(result_of(c, r.files)))),
                None => fail(tmp, r, unexpected_event()),
            }
        },
        _ => fail(tmp, r, unexpected_event()),
    }
}

/// The transition of a run of `e` on the event `ev`, for a worker whose scratch
/// root is `root` and whose tmp buffers are `tmp`: the new buffers, the new
/// run and the action for the caller.
pub open spec fn next(
    root: Seq<char>,
    tmp: Map<u64, Seq<u8>>,
    e: Execution,
    r: RunView,
    ev: EventView,
) -> (Map<u64, Seq<u8>>, RunView, ActionView) {
    if r.stage == Stage::Done {
        (tmp, r, ActionView::Idle)
    } else {
        match ev {
            EventView::Done => if r.pending == Pending::Nothing || r.pending == Pending::Store {
                act(root, tmp, e, RunView { pending: Pending::Nothing, ..r })
            } else {
                fail(tmp, r, unexpected_event())
            },
            EventView::Loaded(b) => if r.pending == Pending::Load {
                (tmp, RunView { pending: Pending::Nothing, loaded: Some(b), ..r }, ActionView::Proceed)
            } else {
                fail(tmp, r, unexpected_event())
            },
            EventView::Failed(m) => if r.pending == Pending::Load || r.pending == Pending::Store {
                fail(tmp, r, m)
            } else {
                fail(tmp, r, unexpected_event())
            },
            EventView::Exited(o) => if r.pending == Pending::Exit {
                let c = capture(e, o);
                (
                    tmp,
                    RunView {
                        stage: if c.code == 0 { Stage::CopyOut } else { Stage::Returns },
                        pending: Pending::Nothing,
                        cursor: 0,
                        captured: Some(c),
                        ..r
                    },
                    ActionView::Proceed,
                )
            } else {
                fail(tmp, r, unexpected_event())
            },
            EventView::SpawnFailed(m) => if r.pending == Pending::Exit {
                fail(tmp, r, "Failed to spawn process: "@ + m)
            } else {
                fail(tmp, r, unexpected_event())
            },
            EventView::WaitFailed(m) => if r.pending == Pending::Exit {
                fail(tmp, r, "Failed to wait for process output: "@ + m)
            } else {
                fail(tmp, r, unexpected_event())
            },
        }
    }
}

/// The state of a run that has not started.
pub open spec fn initial_run() -> RunView {
    RunView {
        stage: Stage::CopyIn,
        pending: Pending::Nothing,
        cursor: 0,
        loaded: None,
        stdin: None,
        captured: None,
        files: seq![],
    }
}

} // verus!
