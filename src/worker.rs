//! The per-request worker: it owns a scratch directory, a container template
//! and the tmp buffers, and drives each execution through its phases.
use vstd::prelude::*;
use vstd::string::StringExecFns;
use std::collections::HashMap;
use crate::machine::{
    bytes_opt, capture, captured_opt, entry_name, fail, files_view, initial_run, next, source_of, sink_of,
    tmp_bytes, transfer_step, return_step, act, transfers, unexpected_event, unsupported, ActionView, Captured, Event, LocView, Location, Pending, ProcessOutput,
    ResultView, RunView, SinkView, SourceView, Stage,
};
use crate::normalize::autofix;
use crate::sandbox::SandboxProfile;
use crate::text::{copy_bytes, join_path, joined, prefixed, take_prefix, with_decimal};
use crate::types::{Execution, ExecutionError, ExecutionFile, ExecutionResult, File, FilePath};

verus! {

broadcast use vstd::std_specs::hash::group_hash_axioms;

/// The action the caller performs next.
#[derive(Debug)]
pub enum Action {
    /// Nothing to do outside; answer with `Event::Done`.
    Proceed,
    /// Read the bytes at `from`, first setting its execute bits when
    /// `make_executable`; answer with `Loaded` or `Failed`.
    Load { from: Location, make_executable: bool },
    /// Write `content` to `to`, with execute bits when `executable`; answer
    /// with `Done` or `Failed`.
    Store { to: Location, content: Vec<u8>, executable: bool },
    /// Spawn the child under the worker's sandbox with the run's program,
    /// arguments and limits, feed it `stdin` if any, and wait for it; answer
    /// with `Exited`, `SpawnFailed` or `WaitFailed`.
    Launch { stdin: Option<Vec<u8>> },
    /// The run is over.
    Finish { outcome: Result<ExecutionResult, ExecutionError> },
    /// The run was already over.
    Idle,
}

impl Action {
    pub open spec fn view(&self) -> ActionView {
        match self {
            Action::Proceed => ActionView::Proceed,
            Action::Load { from, make_executable } => ActionView::Load(from.view(), *make_executable),
            Action::Store { to, content, executable } => ActionView::Store(to.view(), content@, *executable),
            Action::Launch { stdin } => ActionView::Launch(bytes_opt(*stdin)),
            Action::Finish { outcome } => ActionView::Finish(
                match outcome {
                    Ok(r) => Ok(ResultView {
                        exit_code: r.exit_code,
                        time_used: r.time_used,
                        memory_used: r.memory_used,
                        files: files_view(r.return_files@),
                    }),
                    Err(e) => Err(e.message@),
                },
            ),
            Action::Idle => ActionView::Idle,
        }
    }
}

/// A source as the worker resolved it.
enum Source {
    Ready(Vec<u8>),
    Fetch(Location, bool),
    Refused,
}

impl Source {
    spec fn view(&self) -> SourceView {
        match self {
            Source::Ready(b) => SourceView::Ready(b@),
            Source::Fetch(l, x) => SourceView::Fetch(l.view(), *x),
            Source::Refused => SourceView::Refused,
        }
    }
}

/// A sink as the worker resolved it.
enum Sink {
    ToTmp(u64),
    ToStdin,
    Out(Location, bool),
    Refused,
}

impl Sink {
    spec fn view(&self) -> SinkView {
        match self {
            Sink::ToTmp(id) => SinkView::ToTmp(*id),
            Sink::ToStdin => SinkView::ToStdin,
            Sink::Out(l, x) => SinkView::Out(l.view(), *x),
            Sink::Refused => SinkView::Refused,
        }
    }
}

/// How an initial file reaches the scratch directory.
#[derive(Debug)]
pub enum Staging {
    /// Write `content` at `path`.
    Write { path: String, content: Vec<u8> },
    /// Fetch the blob `id`, then write it at `path`.
    FetchThenWrite { id: String, path: String },
}

/// One execution in progress.
pub struct Run {
    job: Execution,
    stage: Stage,
    pending: Pending,
    cursor: usize,
    loaded: Option<Vec<u8>>,
    stdin: Option<Vec<u8>>,
    captured: Option<Captured>,
    files: Vec<ExecutionFile>,
}

impl Run {
    pub closed spec fn view(&self) -> RunView {
        RunView {
            stage: self.stage,
            pending: self.pending,
            cursor: self.cursor as nat,
            loaded: bytes_opt(self.loaded),
            stdin: bytes_opt(self.stdin),
            captured: captured_opt(self.captured),
            files: files_view(self.files@),
        }
    }

    /// The execution this run performs.
    pub closed spec fn execution(&self) -> Execution {
        self.job
    }

    /// The execution this run performs.
    pub fn execution_ref(&self) -> (r: &Execution)
        ensures
            *r == self.execution(),
    {
        &self.job
    }
}

pub struct Worker {
    path: String,
    temp_files: HashMap<u64, Vec<u8>>,
    sandbox: SandboxProfile,
}

fn finish_with_error(run: &mut Run, message: String) -> (a: Action)
    ensures
        final(run).execution() == old(run).execution(),
        (final(run).view(), a.view()) == ({
            let f = fail(Map::empty(), old(run).view(), message@);
            (f.1, f.2)
        }),
{
    run.stage = Stage::Done;
    run.pending = Pending::Nothing;
    Action::Finish { outcome: Err(ExecutionError { message }) }
}

fn unsupported_message(st: Stage) -> (r: String)
    ensures
        r@ == unsupported(st),
{
    proof {
        reveal_strlit("Unsupported file path for copy_in");
        reveal_strlit("Unsupported file path for copy_out");
        reveal_strlit("Unsupported file path for return_files");
    }
    if st == Stage::CopyIn {
        String::from_str("Unsupported file path for copy_in")
    } else if st == Stage::CopyOut {
        String::from_str("Unsupported file path for copy_out")
    } else {
        String::from_str("Unsupported file path for return_files")
    }
}

fn unexpected_message() -> (r: String)
    ensures
        r@ == unexpected_event(),
{
    proof {
        reveal_strlit("Unexpected event for the pending action");
    }
    String::from_str("Unexpected event for the pending action")
}

/// The name under which `p` is returned, or `None` when `p` cannot be returned.
pub fn entry_name_of(p: &FilePath) -> (r: Option<String>)
    ensures
        match r {
            Some(s) => entry_name(*p) == Some(s@),
            None => entry_name(*p) is None,
        },
{
    proof {
        reveal_strlit("stdout");
        reveal_strlit("stderr");
    }
    match p {
        FilePath::Local { name, executable: _ } => Some(name.clone()),
        FilePath::Remote { id } => Some(prefixed("remote_", id)),
        FilePath::Stdout { max_size: _ } => Some(String::from_str("stdout")),
        FilePath::Stderr { max_size: _ } => Some(String::from_str("stderr")),
        FilePath::Tmp { id } => Some(with_decimal("tmp_", *id)),
        _ => None,
    }
}

/// The outputs of the child as later directives see them: stdout normalised
/// unless `autofix` is false, missing resource figures read as zero.
pub fn capture_output(e: &Execution, o: ProcessOutput) -> (c: Captured)
    ensures
        c.view() == capture(*e, o.view()),
{
    let fixes = match e.autofix {
        Some(b) => b,
        None => true,
    };
    let stdout = if fixes {
        autofix(&o.stdout)
    } else {
        o.stdout
    };
    let time_used: u128 = match o.cpu {
        Some(t) => t.user_ms as u128 + t.system_ms as u128,
        None => 0,
    };
    let memory_used: u64 = match o.vmrss_kb {
        Some(k) => k,
        None => 0,
    };
    Captured { code: o.code, stdout, stderr: o.stderr, time_used, memory_used }
}

impl Worker {
    /// The scratch root on the host.
    pub closed spec fn root(&self) -> Seq<char> {
        self.path@
    }

    /// The tmp buffers.
    pub closed spec fn tmp(&self) -> Map<u64, Seq<u8>> {
        self.temp_files@.map_values(|v: Vec<u8>| v@)
    }

    /// The container template.
    pub closed spec fn profile(&self) -> SandboxProfile {
        self.sandbox
    }

    /// A worker for the scratch directory `code_path`, with no tmp buffer.
    /// The caller creates the directory.
    pub fn new(code_path: String) -> (w: Worker)
        ensures
            w.root() == code_path@,
            w.tmp() == Map::<u64, Seq<u8>>::empty(),
            w.profile().is_template_for(code_path@),
    {
        let sandbox = SandboxProfile::template(&code_path);
        let w = Worker { path: code_path, temp_files: HashMap::new(), sandbox };
        proof {
            assert(w.tmp() =~= Map::<u64, Seq<u8>>::empty());
        }
        w
    }

    /// The scratch root on the host.
    pub fn root_path(&self) -> (r: &String)
        ensures
            r@ == self.root(),
    {
        &self.path
    }

    /// The container template that every child of this worker runs under.
    pub fn sandbox(&self) -> (r: &SandboxProfile)
        ensures
            *r == self.profile(),
    {
        &self.sandbox
    }

    /// How the initial file `file` is staged into the scratch directory.
    pub fn write_file(&self, file: &File) -> (s: Staging)
        ensures
            match (file, s) {
                (File::Local { name, content }, Staging::Write { path, content: c }) =>
                    path@ == joined(self.root(), name@) && c@ == content@,
                (File::Remote { name, id }, Staging::FetchThenWrite { id: i, path }) =>
                    path@ == joined(self.root(), name@) && i@ == id@,
                _ => false,
            },
    {
        match file {
            File::Local { name, content } => Staging::Write {
                path: join_path(&self.path, name),
                content: copy_bytes(content),
            },
            File::Remote { name, id } => Staging::FetchThenWrite {
                id: id.clone(),
                path: join_path(&self.path, name),
            },
        }
    }

    /// Drops every tmp buffer and hands back the scratch root, which the
    /// caller then removes.
    pub fn cleanup(&mut self) -> (root: String)
        ensures
            root@ == old(self).root(),
            final(self).root() == old(self).root(),
            final(self).profile() == old(self).profile(),
            final(self).tmp() == Map::<u64, Seq<u8>>::empty(),
    {
        self.temp_files.clear();
        proof {
            assert(self.tmp() =~= Map::<u64, Seq<u8>>::empty());
        }
        self.path.clone()
    }

    /// A run of `exec` that has not started.
    pub fn begin(&self, exec: Execution) -> (r: Run)
        ensures
            r.view() == initial_run(),
            r.execution() == exec,
    {
        let r = Run {
            job: exec,
            stage: Stage::CopyIn,
            pending: Pending::Nothing,
            cursor: 0,
            loaded: None,
            stdin: None,
            captured: None,
            files: Vec::new(),
        };
        proof {
            assert(files_view(r.files@) =~= seq![]);
        }
        r
    }

    fn tmp_copy(&self, id: u64) -> (r: Vec<u8>)
        ensures
            r@ == tmp_bytes(self.tmp(), id),
    {
        match self.temp_files.get(&id) {
            Some(v) => copy_bytes(v),
            None => Vec::new(),
        }
    }

    fn location_of(&self, st: Stage, name: &String) -> (r: Location)
        ensures
            r.view() == (if st == Stage::CopyIn {
                LocView::Host(name@)
            } else {
                LocView::Scratch(joined(self.root(), name@))
            }),
    {
        if st == Stage::CopyIn {
            Location::Host { path: name.clone() }
        } else {
            Location::Scratch { path: join_path(&self.path, name) }
        }
    }

    fn resolve(&self, st: Stage, from: &FilePath, cap: &Option<Captured>) -> (s: Source)
        ensures
            s.view() == source_of(st, *from, self.tmp(), captured_opt(*cap), self.root()),
    {
        match from {
            FilePath::Local { name, executable } => Source::Fetch(self.location_of(st, name), *executable),
            FilePath::Data { content } => Source::Ready(copy_bytes(content)),
            FilePath::Remote { id } => Source::Fetch(Location::Blob { id: id.clone() }, false),
            FilePath::Tmp { id } => Source::Ready(self.tmp_copy(*id)),
            FilePath::Stdout { max_size } => match cap {
                Some(c) => if st != Stage::CopyIn {
                    Source::Ready(take_prefix(&c.stdout, *max_size))
                } else {
                    Source::Refused
                },
                None => Source::Refused,
            },
            FilePath::Stderr { max_size } => match cap {
                Some(c) => if st != Stage::CopyIn {
                    Source::Ready(take_prefix(&c.stderr, *max_size))
                } else {
                    Source::Refused
                },
                None => Source::Refused,
            },
            FilePath::Stdin {} => Source::Refused,
        }
    }

    fn sink(&self, st: Stage, to: &FilePath) -> (k: Sink)
        ensures
            k.view() == sink_of(st, *to, self.root()),
    {
        match to {
            FilePath::Local { name, executable } => Sink::Out(
                Location::Scratch { path: join_path(&self.path, name) },
                *executable,
            ),
            FilePath::Remote { id } => Sink::Out(Location::Blob { id: id.clone() }, false),
            FilePath::Tmp { id } => Sink::ToTmp(*id),
            FilePath::Stdin {} => if st == Stage::CopyIn {
                Sink::ToStdin
            } else {
                Sink::Refused
            },
            _ => Sink::Refused,
        }
    }

    /// One `copy_in` or `copy_out` directive, at the run's cursor.
    fn transfer(&mut self, run: &mut Run) -> (a: Action)
        requires
            old(run).view().pending == Pending::Nothing,
            old(run).view().stage == Stage::CopyIn || old(run).view().stage == Stage::CopyOut,
            old(run).view().stage == Stage::CopyIn ==> old(run).view().cursor < old(run).execution().copy_in@.len(),
            old(run).view().stage == Stage::CopyOut ==> old(run).view().cursor < old(run).execution().copy_out@.len(),
        ensures
            final(run).execution() == old(run).execution(),
            final(self).root() == old(self).root(),
            final(self).profile() == old(self).profile(),
            (final(self).tmp(), final(run).view(), a.view()) == transfer_step(
                old(self).root(),
                old(self).tmp(),
                transfers(old(run).execution(), old(run).view().stage)[old(run).view().cursor as int],
                old(run).view(),
            ),
    {
        let st = run.stage;
        let cur = run.cursor;
        proof {
            if st == Stage::CopyIn {
                assert(cur < run.job.copy_in.len());
            } else {
                assert(cur < run.job.copy_out.len());
            }
        }
        let d = if st == Stage::CopyIn {
            &run.job.copy_in[run.cursor]
        } else {
            &run.job.copy_out[run.cursor]
        };
        let k = self.sink(st, &d.to);
        if let Sink::Refused = k {
            return finish_with_error(run, unsupported_message(st));
        }
        let ghost r0 = run.view();
        let data: Vec<u8> = match run.loaded.take() {
            Some(b) => b,
            None => match self.resolve(st, &d.from, &run.captured) {
                Source::Ready(b) => b,
                Source::Fetch(loc, x) => {
                    run.pending = Pending::Load;
                    proof {
                        assert(run.view() == RunView { pending: Pending::Load, ..r0 });
                    }
                    return Action::Load { from: loc, make_executable: x };
                },
                Source::Refused => {
                    return finish_with_error(run, unsupported_message(st));
                },
            },
        };
        let ghost tmp0 = self.tmp();
        match k {
            Sink::ToTmp(id) => {
                let ghost dv = data@;
                self.temp_files.insert(id, data);
                run.cursor = cur + 1;
                proof {
                    assert(self.tmp() =~= tmp0.insert(id, dv));
                }
                Action::Proceed
            },
            Sink::ToStdin => {
                run.stdin = Some(data);
                run.cursor = cur + 1;
                Action::Proceed
            },
            Sink::Out(loc, x) => {
                run.cursor = cur + 1;
                run.pending = Pending::Store;
                Action::Store { to: loc, content: data, executable: x }
            },
            Sink::Refused => finish_with_error(run, unsupported_message(st)),
        }
    }

    /// One entry of `return_files`, at the run's cursor.
    fn collect(&mut self, run: &mut Run) -> (a: Action)
        requires
            old(run).view().pending == Pending::Nothing,
            old(run).view().stage == Stage::Returns,
            old(run).view().cursor < old(run).execution().return_files@.len(),
        ensures
            final(run).execution() == old(run).execution(),
            final(self).root() == old(self).root(),
            final(self).profile() == old(self).profile(),
            (final(self).tmp(), final(run).view(), a.view()) == return_step(
                old(self).root(),
                old(self).tmp(),
                old(run).execution().return_files@[old(run).view().cursor as int],
                old(run).view(),
            ),
    {
        let cur = run.cursor;
        proof {
            assert(cur < run.job.return_files.len());
        }
        let p = &run.job.return_files[cur];
        let name = match entry_name_of(p) {
            Some(n) => n,
            None => {
                return finish_with_error(run, unsupported_message(Stage::Returns));
            },
        };
        let ghost r0 = run.view();
        let data: Vec<u8> = match run.loaded.take() {
            Some(b) => b,
            None => match self.resolve(Stage::Returns, p, &run.captured) {
                Source::Ready(b) => b,
                Source::Fetch(loc, x) => {
                    run.pending = Pending::Load;
                    proof {
                        assert(run.view() == RunView { pending: Pending::Load, ..r0 });
                    }
                    return Action::Load { from: loc, make_executable: x };
                },
                Source::Refused => {
                    return finish_with_error(run, unsupported_message(Stage::Returns));
                },
            },
        };
        let ghost tmp0 = self.tmp();
        if let FilePath::Tmp { id } = p {
            self.temp_files.remove(id);
            proof {
                assert(self.tmp() =~= tmp0.remove(*id));
            }
        }
        let ghost f0 = run.files@;
        let ghost entry = (name@, data@);
        run.files.push(ExecutionFile { name, content: data });
        run.cursor = cur + 1;
        proof {
            assert(files_view(run.files@) =~= files_view(f0).push(entry));
        }
        Action::Proceed
    }

    /// The next action of a run with nothing pending.
    fn act(&mut self, run: &mut Run) -> (a: Action)
        requires
            old(run).view().pending == Pending::Nothing,
        ensures
            final(run).execution() == old(run).execution(),
            final(self).root() == old(self).root(),
            final(self).profile() == old(self).profile(),
            (final(self).tmp(), final(run).view(), a.view()) == act(
                old(self).root(),
                old(self).tmp(),
                old(run).execution(),
                old(run).view(),
            ),
    {
        match run.stage {
            Stage::CopyIn => if run.cursor < run.job.copy_in.len() {
                self.transfer(run)
            } else {
                let stdin = run.stdin.take();
                run.stage = Stage::Running;
                run.pending = Pending::Exit;
                Action::Launch { stdin }
            },
            Stage::CopyOut => if run.cursor < run.job.copy_out.len() {
                self.transfer(run)
            } else {
                run.stage = Stage::Returns;
                run.cursor = 0;
                Action::Proceed
            },
            Stage::Returns => if run.cursor < run.job.return_files.len() {
                self.collect(run)
            } else {
                match &run.captured {
                    Some(c) => {
                        let exit_code = c.code;
                        let time_used = c.time_used;
                        let memory_used = c.memory_used;
                        let mut out: Vec<ExecutionFile> = Vec::new();
                        std::mem::swap(&mut out, &mut run.files);
                        run.stage = Stage::Done;
                        proof {
                            assert(files_view(run.files@) =~= seq![]);
                        }
                        Action::Finish {
                            outcome: Ok(ExecutionResult { exit_code, time_used, memory_used, return_files: out }),
                        }
                    },
                    None => finish_with_error(run, unexpected_message()),
                }
            },
            _ => finish_with_error(run, unexpected_message()),
        }
    }

    /// Takes in what came of the last action of `run` and returns the next
    /// action. Directives run in the order the execution lists them;
    /// `copy_out` runs only after the child exited with code 0, and
    /// `return_files` always, consuming the tmp buffers it returns.
    pub fn step(&mut self, run: &mut Run, event: Event) -> (a: Action)
        ensures
            final(run).execution() == old(run).execution(),
            final(self).root() == old(self).root(),
            final(self).profile() == old(self).profile(),
            (final(self).tmp(), final(run).view(), a.view()) == next(
                old(self).root(),
                old(self).tmp(),
                old(run).execution(),
                old(run).view(),
                event.view(),
            ),
    {
        if run.stage == Stage::Done {
            return Action::Idle;
        }
        match event {
            Event::Done => if run.pending == Pending::Nothing || run.pending == Pending::Store {
                run.pending = Pending::Nothing;
                self.act(run)
            } else {
                finish_with_error(run, unexpected_message())
            },
            Event::Loaded { content } => if run.pending == Pending::Load {
                run.pending = Pending::Nothing;
                run.loaded = Some(content);
                Action::Proceed
            } else {
                finish_with_error(run, unexpected_message())
            },
            Event::Failed { message } => if run.pending == Pending::Load || run.pending == Pending::Store {
                finish_with_error(run, message)
            } else {
                finish_with_error(run, unexpected_message())
            },
            Event::Exited { output } => if run.pending == Pending::Exit {
                let c = capture_output(&run.job, output);
                run.stage = if c.code == 0 {
                    Stage::CopyOut
                } else {
                    Stage::Returns
                };
                run.pending = Pending::Nothing;
                run.cursor = 0;
                run.captured = Some(c);
                Action::Proceed
            } else {
                finish_with_error(run, unexpected_message())
            },
            Event::SpawnFailed { message } => if run.pending == Pending::Exit {
                proof {
                    reveal_strlit("Failed to spawn process: ");
                }
                finish_with_error(run, prefixed("Failed to spawn process: ", &message))
            } else {
                finish_with_error(run, unexpected_message())
            },
            Event::WaitFailed { message } => if run.pending == Pending::Exit {
                proof {
                    reveal_strlit("Failed to wait for process output: ");
                }
                finish_with_error(run, prefixed("Failed to wait for process output: ", &message))
            } else {
                finish_with_error(run, unexpected_message())
            },
        }
    }
}

/// Whether a batch goes on after an execution: it stops on an error, and on a
/// non-zero exit code when the execution asked to die on error.
pub open spec fn batch_goes_on(die_on_error: bool, exit_code: Option<i32>) -> bool {
    match exit_code {
        Some(c) => c == 0 || !die_on_error,
        None => false,
    }
}

/// Whether the batch runs its next execution after one whose `die_on_error`
/// flag is `die_on_error` ended with `outcome`.
pub fn continues_batch(die_on_error: bool, outcome: &Result<ExecutionResult, ExecutionError>) -> (r: bool)
    ensures
        r == batch_goes_on(
            die_on_error,
            match outcome {
                Ok(res) => Some(res.exit_code),
                Err(_) => None,
            },
        ),
{
    match outcome {
        Ok(res) => res.exit_code == 0 || !die_on_error,
        Err(_) => false,
    }
}

} // verus!