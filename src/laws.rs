//! Properties of the execution state machine, proved over its transition.
use vstd::prelude::*;
use crate::machine::{
    act, capture, entry_name, initial_run, next, sink_of, source_of, transfers, ActionView, EventView,
    OutputView, Pending, ResultView, RunView, SinkView, SourceView, Stage,
};
use crate::normalize::{has_clean_lines, lemma_normalized_lines_are_clean};
use crate::types::{Execution, FilePath};

verus! {

/// Length of the directive list that stage `st` works through.
pub open spec fn list_len(e: Execution, st: Stage) -> nat {
    match st {
        Stage::CopyIn => e.copy_in@.len(),
        Stage::CopyOut => e.copy_out@.len(),
        Stage::Returns => e.return_files@.len(),
        _ => 0,
    }
}

/// The states a run of `e` can be in.
pub open spec fn run_wf(e: Execution, r: RunView) -> bool {
    &&& (r.stage == Stage::CopyIn || r.stage == Stage::CopyOut || r.stage == Stage::Returns) ==> r.cursor <= list_len(e, r.stage)
    &&& (r.stage == Stage::CopyIn || r.stage == Stage::Running) ==> r.captured is None && r.files.len() == 0
    &&& (r.stage == Stage::CopyOut || r.stage == Stage::Returns) ==> r.captured is Some
    &&& r.stage == Stage::CopyOut ==> r.files.len() == 0
    &&& r.stage == Stage::Running <==> r.pending == Pending::Exit
    &&& r.stage == Stage::CopyOut ==> r.captured->0.code == 0
    &&& (r.stage != Stage::Done && (r.pending == Pending::Load || r.loaded is Some)) ==> {
        &&& r.stage == Stage::CopyIn || r.stage == Stage::CopyOut || r.stage == Stage::Returns
        &&& r.cursor < list_len(e, r.stage)
    }
    &&& r.pending == Pending::Load ==> r.loaded is None
    &&& r.loaded is Some ==> r.pending == Pending::Nothing
    &&& r.stage == Stage::Done ==> r.pending == Pending::Nothing
    &&& r.stage == Stage::Returns ==> {
        &&& r.files.len() == r.cursor
        &&& forall|k: int| 0 <= k < r.cursor ==> entry_name(#[trigger] e.return_files@[k]) == Some(r.files[k].0)
    }
}

/// Order of the stages.
pub open spec fn rank(st: Stage) -> nat {
    match st {
        Stage::CopyIn => 0,
        Stage::Running => 1,
        Stage::CopyOut => 2,
        Stage::Returns => 3,
        Stage::Done => 4,
    }
}

/// A run that has not started is in a valid state.
pub proof fn lemma_initial_run_wf(e: Execution)
    ensures
        run_wf(e, initial_run()),
{
}

/// Every transition keeps a run in a valid state.
pub proof fn lemma_next_keeps_wf(root: Seq<char>, tmp: Map<u64, Seq<u8>>, e: Execution, r: RunView, ev: EventView)
    requires
        run_wf(e, r),
    ensures
        run_wf(e, next(root, tmp, e, r, ev).1),
{
    let r2 = next(root, tmp, e, r, ev).1;
    if r.stage == Stage::Returns && r2.stage == Stage::Returns && r2.cursor == r.cursor + 1 {
        assert forall|k: int| 0 <= k < r2.cursor implies entry_name(#[trigger] e.return_files@[k]) == Some(r2.files[k].0) by {
            if k < r.cursor {
                assert(r2.files[k] == r.files[k]);
            }
        }
    }
}

/// Once the child exited with a non-zero code, no transition writes a sink:
/// `copy_out` is skipped and no store (local or remote) is ever requested.
pub proof fn lemma_failed_child_writes_nothing(
    root: Seq<char>,
    tmp: Map<u64, Seq<u8>>,
    e: Execution,
    r: RunView,
    ev: EventView,
)
    requires
        run_wf(e, r),
        r.captured is Some,
        r.captured->0.code != 0,
    ensures
        !(next(root, tmp, e, r, ev).2 is Store),
        next(root, tmp, e, r, ev).1.stage != Stage::CopyOut,
        next(root, tmp, e, r, ev).1.captured == r.captured,
{
}

/// The child's exit moves a run past `copy_out` exactly when its code is not 0.
pub proof fn lemma_exit_code_decides_copy_out(
    root: Seq<char>,
    tmp: Map<u64, Seq<u8>>,
    e: Execution,
    r: RunView,
    o: OutputView,
)
    requires
        run_wf(e, r),
        r.stage == Stage::Running,
    ensures
        next(root, tmp, e, r, EventView::Exited(o)).1.stage == (if o.code == 0 {
            Stage::CopyOut
        } else {
            Stage::Returns
        }),
        next(root, tmp, e, r, EventView::Exited(o)).1.captured == Some(capture(e, o)),
{
}

/// The files of a result follow `return_files`: one entry per requested
/// source, in the requested order, under the name the source calls for.
pub proof fn lemma_result_follows_request(
    root: Seq<char>,
    tmp: Map<u64, Seq<u8>>,
    e: Execution,
    r: RunView,
    ev: EventView,
    res: ResultView,
)
    requires
        run_wf(e, r),
        next(root, tmp, e, r, ev).2 == ActionView::Finish(Ok(res)),
    ensures
        res.files.len() == e.return_files@.len(),
        forall|k: int| 0 <= k < res.files.len() ==> entry_name(#[trigger] e.return_files@[k]) == Some(res.files[k].0),
{
}

/// Directives take effect in the order they are listed: a run never moves
/// back to an earlier stage or an earlier directive, and a store is the sink
/// of the directive at the cursor, after which the cursor is past it.
pub proof fn lemma_directives_in_order(
    root: Seq<char>,
    tmp: Map<u64, Seq<u8>>,
    e: Execution,
    r: RunView,
    ev: EventView,
)
    requires
        run_wf(e, r),
    ensures
        ({
            let r2 = next(root, tmp, e, r, ev).1;
            &&& rank(r2.stage) >= rank(r.stage)
            &&& (r2.stage == r.stage ==> r2.cursor >= r.cursor)
            &&& match next(root, tmp, e, r, ev).2 {
                ActionView::Store(loc, _b, x) => {
                    &&& r.stage == Stage::CopyIn || r.stage == Stage::CopyOut
                    &&& r2.stage == r.stage
                    &&& r2.cursor == r.cursor + 1
                    &&& sink_of(r.stage, transfers(e, r.stage)[r.cursor as int].to, root) == SinkView::Out(loc, x)
                },
                _ => true,
            }
        }),
{
}

/// A returned `Tmp` source is removed from the worker's buffers, and nothing
/// after the child's exit adds a buffer back.
pub proof fn lemma_returned_tmp_is_consumed(
    root: Seq<char>,
    tmp: Map<u64, Seq<u8>>,
    e: Execution,
    r: RunView,
    id: u64,
)
    requires
        run_wf(e, r),
        r.stage == Stage::Returns,
        r.pending == Pending::Nothing,
        r.cursor < e.return_files@.len(),
        e.return_files@[r.cursor as int] == (FilePath::Tmp { id }),
    ensures
        !next(root, tmp, e, r, EventView::Done).0.contains_key(id),
        next(root, tmp, e, r, EventView::Done).1.cursor == r.cursor + 1,
{
}

/// After the child's exit the buffers only shrink.
pub proof fn lemma_returns_add_no_buffer(
    root: Seq<char>,
    tmp: Map<u64, Seq<u8>>,
    e: Execution,
    r: RunView,
    ev: EventView,
)
    requires
        run_wf(e, r),
        r.stage == Stage::Returns || r.stage == Stage::Done,
    ensures
        next(root, tmp, e, r, ev).0.dom().subset_of(tmp.dom()),
{
}

/// A missing tmp buffer reads as empty bytes, not as an error.
pub proof fn lemma_missing_tmp_reads_empty(
    st: Stage,
    id: u64,
    tmp: Map<u64, Seq<u8>>,
    cap: Option<crate::machine::CapturedView>,
    root: Seq<char>,
)
    requires
        !tmp.contains_key(id),
    ensures
        source_of(st, FilePath::Tmp { id }, tmp, cap, root) == SourceView::Ready(Seq::<u8>::empty()),
{
}

/// `copy_in` of bytes `b` into `Tmp{id}`, then from `Tmp{id}` into `Stdin`,
/// leaves `b` as the child's standard input.
pub proof fn lemma_tmp_round_trip_to_stdin(
    root: Seq<char>,
    tmp: Map<u64, Seq<u8>>,
    e: Execution,
    r: RunView,
    id: u64,
    b: Seq<u8>,
)
    requires
        run_wf(e, r),
        r.stage == Stage::CopyIn,
        r.pending == Pending::Nothing,
        r.cursor + 1 < e.copy_in@.len(),
        e.copy_in@[r.cursor as int].to == (FilePath::Tmp { id }),
        e.copy_in@[r.cursor + 1int].from == (FilePath::Tmp { id }),
        e.copy_in@[r.cursor + 1int].to == (FilePath::Stdin {}),
        r.loaded == Some(b) || (r.loaded is None && source_of(
            Stage::CopyIn,
            e.copy_in@[r.cursor as int].from,
            tmp,
            r.captured,
            root,
        ) == SourceView::Ready(b)),
    ensures
        ({
            let s1 = next(root, tmp, e, r, EventView::Done);
            let s2 = next(root, s1.0, e, s1.1, EventView::Done);
            s2.1.stdin == Some(b)
        }),
{
    let s1 = next(root, tmp, e, r, EventView::Done);
    assert(s1.0 == tmp.insert(id, b));
    assert(s1.1.cursor == r.cursor + 1);
}

/// With `autofix` on, the stdout that later directives and the result see
/// has every line ending in a line feed and no line ending in a blank.
pub proof fn lemma_autofixed_stdout_is_clean(e: Execution, o: OutputView)
    requires
        e.fixes_output(),
    ensures
        has_clean_lines(capture(e, o).stdout),
{
    lemma_normalized_lines_are_clean(o.stdout);
}

} // verus!
