//! What whole runs of the job state machine do.
//!
//! A run starts in `Stage::CreateInput` and feeds the machine one reported
//! outcome per step; the actions owed along the way form the run's trace.
//! The lemmas here state the machine's guarantees over every run: the
//! delivery callback is invoked at most once, and exactly once on the
//! success path; a download failure becomes the job's result and the
//! callback is never invoked; an unencodable path fails the job before the
//! foreign routine is ever invoked; and a successful run removes exactly
//! the job's two temp files from disk, so that running the same job again
//! succeeds identically.

use vstd::prelude::*;
use crate::job::ActionV;
use crate::job::Event;
use crate::job::JobError;
use crate::job::JobPlan;
use crate::job::Stage;
use crate::job::action_spec;
use crate::job::advance_spec;
use crate::job::encodable;

verus! {

/// The stage reached after feeding the machine the outcomes `evs`.
pub open spec fn stage_after(p: JobPlan, st: Stage, evs: Seq<Event>) -> Stage
    decreases evs.len(),
{
    if evs.len() == 0 {
        st
    } else {
        stage_after(p, advance_spec(p, st, evs[0]), evs.drop_first())
    }
}

/// The actions the runner performs while feeding the machine `evs`: the
/// action owed in each visited stage, in order. Terminal stages owe none.
pub open spec fn trace_actions(p: JobPlan, st: Stage, evs: Seq<Event>) -> Seq<ActionV>
    decreases evs.len(),
{
    if evs.len() == 0 {
        Seq::<ActionV>::empty()
    } else {
        let rest = trace_actions(p, advance_spec(p, st, evs[0]), evs.drop_first());
        match action_spec(p, st) {
            Some(a) => seq![a] + rest,
            None => rest,
        }
    }
}

/// How many delivery-callback invocations a trace holds.
pub open spec fn deliver_count(acts: Seq<ActionV>) -> nat
    decreases acts.len(),
{
    if acts.len() == 0 {
        0
    } else {
        (if acts[0] is DeliverOutput {
            1nat
        } else {
            0nat
        }) + deliver_count(acts.drop_first())
    }
}

/// How many foreign-routine invocations a trace holds.
pub open spec fn tool_count(acts: Seq<ActionV>) -> nat
    decreases acts.len(),
{
    if acts.len() == 0 {
        0
    } else {
        (if acts[0] is RunTool {
            1nat
        } else {
            0nat
        }) + tool_count(acts.drop_first())
    }
}

/// A sequence of `n` succeeded outcomes.
pub open spec fn all_ok(n: nat) -> Seq<Event> {
    Seq::new(n, |i: int| Event::Succeeded)
}

/// The six actions of a fully successful run, in order.
pub open spec fn success_actions(p: JobPlan) -> Seq<ActionV> {
    seq![
        ActionV::CreateFile(p.input_path@),
        ActionV::DownloadTo(p.url@, p.input_path@),
        ActionV::RunTool(p.debug, p.verbose, p.input_path@, p.output_path@),
        ActionV::DeliverOutput(p.output_path@),
        ActionV::RemoveFile(p.input_path@),
        ActionV::RemoveFile(p.output_path@),
    ]
}

proof fn lemma_deliver_count_cons(a: ActionV, rest: Seq<ActionV>)
    ensures
        deliver_count(seq![a] + rest) == (if a is DeliverOutput {
            1nat
        } else {
            0nat
        }) + deliver_count(rest),
{
    let s = seq![a] + rest;
    assert(s[0] == a);
    assert(s.drop_first() =~= rest);
}

proof fn lemma_tool_count_cons(a: ActionV, rest: Seq<ActionV>)
    ensures
        tool_count(seq![a] + rest) == (if a is RunTool {
            1nat
        } else {
            0nat
        }) + tool_count(rest),
{
    let s = seq![a] + rest;
    assert(s[0] == a);
    assert(s.drop_first() =~= rest);
}

/// Once a job is `Done` or `Failed` it stays so and performs no further
/// action, whatever outcomes are still reported.
pub proof fn lemma_terminal_absorbs(p: JobPlan, st: Stage, evs: Seq<Event>)
    requires
        st == Stage::Done || st is Failed,
    ensures
        stage_after(p, st, evs) == st,
        trace_actions(p, st, evs) == Seq::<ActionV>::empty(),
    decreases evs.len(),
{
    if evs.len() > 0 {
        assert(advance_spec(p, st, evs[0]) == st);
        lemma_terminal_absorbs(p, st, evs.drop_first());
    }
}

/// A fully successful run ends `Done`, performs exactly the six actions of
/// [`success_actions`] in order, and in particular invokes the delivery
/// callback exactly once.
pub proof fn lemma_success_run(p: JobPlan)
    requires
        encodable(p),
    ensures
        stage_after(p, Stage::CreateInput, all_ok(6)) == Stage::Done,
        trace_actions(p, Stage::CreateInput, all_ok(6)) == success_actions(p),
        deliver_count(success_actions(p)) == 1,
        tool_count(success_actions(p)) == 1,
{
    assert(all_ok(6).drop_first() =~= all_ok(5));
    assert(all_ok(5).drop_first() =~= all_ok(4));
    assert(all_ok(4).drop_first() =~= all_ok(3));
    assert(all_ok(3).drop_first() =~= all_ok(2));
    assert(all_ok(2).drop_first() =~= all_ok(1));
    assert(all_ok(1).drop_first() =~= all_ok(0));
    assert(stage_after(p, Stage::Done, all_ok(0)) == Stage::Done);
    assert(stage_after(p, Stage::RemoveOutput, all_ok(1)) == stage_after(p, Stage::Done, all_ok(0)));
    assert(stage_after(p, Stage::RemoveInput, all_ok(2)) == stage_after(
        p,
        Stage::RemoveOutput,
        all_ok(1),
    ));
    assert(stage_after(p, Stage::Deliver, all_ok(3)) == stage_after(
        p,
        Stage::RemoveInput,
        all_ok(2),
    ));
    assert(stage_after(p, Stage::Process, all_ok(4)) == stage_after(p, Stage::Deliver, all_ok(3)));
    assert(stage_after(p, Stage::Download, all_ok(5)) == stage_after(p, Stage::Process, all_ok(4)));
    assert(stage_after(p, Stage::CreateInput, all_ok(6)) == stage_after(
        p,
        Stage::Download,
        all_ok(5),
    ));
    let t6 = trace_actions(p, Stage::Done, all_ok(0));
    let t5 = trace_actions(p, Stage::RemoveOutput, all_ok(1));
    let t4 = trace_actions(p, Stage::RemoveInput, all_ok(2));
    let t3 = trace_actions(p, Stage::Deliver, all_ok(3));
    let t2 = trace_actions(p, Stage::Process, all_ok(4));
    let t1 = trace_actions(p, Stage::Download, all_ok(5));
    let t0 = trace_actions(p, Stage::CreateInput, all_ok(6));
    assert(t6 == Seq::<ActionV>::empty());
    assert(t5 == seq![ActionV::RemoveFile(p.output_path@)] + t6);
    assert(t4 == seq![ActionV::RemoveFile(p.input_path@)] + t5);
    assert(t3 == seq![ActionV::DeliverOutput(p.output_path@)] + t4);
    assert(t2 == seq![ActionV::RunTool(p.debug, p.verbose, p.input_path@, p.output_path@)] + t3);
    assert(t1 == seq![ActionV::DownloadTo(p.url@, p.input_path@)] + t2);
    assert(t0 == seq![ActionV::CreateFile(p.input_path@)] + t1);
    assert(t0 =~= success_actions(p));
    lemma_deliver_count_cons(ActionV::RemoveFile(p.output_path@), t6);
    lemma_deliver_count_cons(ActionV::RemoveFile(p.input_path@), t5);
    lemma_deliver_count_cons(ActionV::DeliverOutput(p.output_path@), t4);
    lemma_deliver_count_cons(
        ActionV::RunTool(p.debug, p.verbose, p.input_path@, p.output_path@),
        t3,
    );
    lemma_deliver_count_cons(ActionV::DownloadTo(p.url@, p.input_path@), t2);
    lemma_deliver_count_cons(ActionV::CreateFile(p.input_path@), t1);
    lemma_tool_count_cons(ActionV::RemoveFile(p.output_path@), t6);
    lemma_tool_count_cons(ActionV::RemoveFile(p.input_path@), t5);
    lemma_tool_count_cons(ActionV::DeliverOutput(p.output_path@), t4);
    lemma_tool_count_cons(ActionV::RunTool(p.debug, p.verbose, p.input_path@, p.output_path@), t3);
    lemma_tool_count_cons(ActionV::DownloadTo(p.url@, p.input_path@), t2);
    lemma_tool_count_cons(ActionV::CreateFile(p.input_path@), t1);
}

/// How many delivery-callback invocations can still come in a given stage.
spec fn deliver_budget(st: Stage) -> nat {
    match st {
        Stage::CreateInput => 1,
        Stage::Download => 1,
        Stage::Process => 1,
        Stage::Deliver => 1,
        Stage::RemoveInput => 0,
        Stage::RemoveOutput => 0,
        Stage::Done => 0,
        Stage::Failed(_) => 0,
    }
}

proof fn lemma_deliver_budget(p: JobPlan, st: Stage, evs: Seq<Event>)
    ensures
        deliver_count(trace_actions(p, st, evs)) <= deliver_budget(st),
    decreases evs.len(),
{
    if evs.len() > 0 {
        let next = advance_spec(p, st, evs[0]);
        let rest = trace_actions(p, next, evs.drop_first());
        lemma_deliver_budget(p, next, evs.drop_first());
        match action_spec(p, st) {
            Some(a) => {
                lemma_deliver_count_cons(a, rest);
            },
            None => {},
        }
    }
}

/// The delivery callback is invoked at most once per job, whatever
/// outcomes the external actions report.
pub proof fn lemma_deliver_at_most_once(p: JobPlan, evs: Seq<Event>)
    ensures
        deliver_count(trace_actions(p, Stage::CreateInput, evs)) <= 1,
{
    lemma_deliver_budget(p, Stage::CreateInput, evs);
}

/// If the download fails (the input file was created, then the download
/// action reported a failure — `NetworkError` for an unreachable URL or a
/// dropped connection), that failure is the job's result, the delivery
/// callback is never invoked and the foreign routine is never invoked.
pub proof fn lemma_download_failure(p: JobPlan, evs: Seq<Event>, e: JobError)
    requires
        evs.len() >= 2,
        evs[0] == Event::Succeeded,
        evs[1] == Event::Failed(e),
    ensures
        stage_after(p, Stage::CreateInput, evs) == Stage::Failed(e),
        deliver_count(trace_actions(p, Stage::CreateInput, evs)) == 0,
        tool_count(trace_actions(p, Stage::CreateInput, evs)) == 0,
{
    let evs1 = evs.drop_first();
    let evs2 = evs1.drop_first();
    assert(evs1[0] == Event::Failed(e));
    assert(advance_spec(p, Stage::CreateInput, evs[0]) == Stage::Download);
    assert(advance_spec(p, Stage::Download, evs1[0]) == Stage::Failed(e));
    lemma_terminal_absorbs(p, Stage::Failed(e), evs2);
    assert(stage_after(p, Stage::CreateInput, evs) == stage_after(p, Stage::Download, evs1));
    assert(stage_after(p, Stage::Download, evs1) == stage_after(p, Stage::Failed(e), evs2));
    let t2 = trace_actions(p, Stage::Failed(e), evs2);
    let t1 = trace_actions(p, Stage::Download, evs1);
    let t0 = trace_actions(p, Stage::CreateInput, evs);
    assert(t1 == seq![ActionV::DownloadTo(p.url@, p.input_path@)] + t2);
    assert(t0 == seq![ActionV::CreateFile(p.input_path@)] + t1);
    lemma_deliver_count_cons(ActionV::DownloadTo(p.url@, p.input_path@), t2);
    lemma_deliver_count_cons(ActionV::CreateFile(p.input_path@), t1);
    lemma_tool_count_cons(ActionV::DownloadTo(p.url@, p.input_path@), t2);
    lemma_tool_count_cons(ActionV::CreateFile(p.input_path@), t1);
}

/// The stages from which the foreign routine has not run and, with an
/// unencodable plan, never will.
spec fn pre_process(st: Stage) -> bool {
    st == Stage::CreateInput || st == Stage::Download || st == Stage::Done || st is Failed
}

proof fn lemma_unencodable_stays_pre(p: JobPlan, st: Stage, evs: Seq<Event>)
    requires
        !encodable(p),
        pre_process(st),
    ensures
        pre_process(stage_after(p, st, evs)),
        tool_count(trace_actions(p, st, evs)) == 0,
    decreases evs.len(),
{
    if evs.len() > 0 {
        let next = advance_spec(p, st, evs[0]);
        let rest = trace_actions(p, next, evs.drop_first());
        lemma_unencodable_stays_pre(p, next, evs.drop_first());
        match action_spec(p, st) {
            Some(a) => {
                lemma_tool_count_cons(a, rest);
            },
            None => {},
        }
    }
}

/// If a temp path cannot be represented in the foreign boundary's
/// byte-string form, the foreign routine is never invoked, whatever
/// outcomes the external actions report.
pub proof fn lemma_unencodable_never_runs_tool(p: JobPlan, evs: Seq<Event>)
    requires
        !encodable(p),
    ensures
        tool_count(trace_actions(p, Stage::CreateInput, evs)) == 0,
{
    lemma_unencodable_stays_pre(p, Stage::CreateInput, evs);
}

/// With an unencodable plan, a job whose first two actions succeed fails
/// with `PathEncodingError` right after the download, before any foreign
/// call.
pub proof fn lemma_unencodable_fails(p: JobPlan, evs: Seq<Event>)
    requires
        !encodable(p),
        evs.len() >= 2,
        evs[0] == Event::Succeeded,
        evs[1] == Event::Succeeded,
    ensures
        stage_after(p, Stage::CreateInput, evs) == Stage::Failed(JobError::PathEncodingError),
{
    let evs1 = evs.drop_first();
    let evs2 = evs1.drop_first();
    assert(evs1[0] == Event::Succeeded);
    assert(advance_spec(p, Stage::CreateInput, evs[0]) == Stage::Download);
    assert(advance_spec(p, Stage::Download, evs1[0]) == Stage::Failed(
        JobError::PathEncodingError,
    ));
    lemma_terminal_absorbs(p, Stage::Failed(JobError::PathEncodingError), evs2);
    assert(stage_after(p, Stage::CreateInput, evs) == stage_after(p, Stage::Download, evs1));
    assert(stage_after(p, Stage::Download, evs1) == stage_after(
        p,
        Stage::Failed(JobError::PathEncodingError),
        evs2,
    ));
}

/// The effect of one action on the set of paths present on disk: creating,
/// downloading to, or processing into a path makes it present; removing a
/// path makes it absent; delivery touches no file of its own.
pub open spec fn apply_action(files: Set<Seq<char>>, a: ActionV) -> Set<Seq<char>> {
    match a {
        ActionV::CreateFile(q) => files.insert(q),
        ActionV::DownloadTo(_, q) => files.insert(q),
        ActionV::RunTool(_, _, _, out) => files.insert(out),
        ActionV::DeliverOutput(_) => files,
        ActionV::RemoveFile(q) => files.remove(q),
    }
}

/// The effect of a whole trace on the set of paths present on disk.
pub open spec fn apply_actions(files: Set<Seq<char>>, acts: Seq<ActionV>) -> Set<Seq<char>>
    decreases acts.len(),
{
    if acts.len() == 0 {
        files
    } else {
        apply_actions(apply_action(files, acts[0]), acts.drop_first())
    }
}

proof fn lemma_apply_cons(files: Set<Seq<char>>, a: ActionV, rest: Seq<ActionV>)
    ensures
        apply_actions(files, seq![a] + rest) == apply_actions(apply_action(files, a), rest),
{
    let s = seq![a] + rest;
    assert(s[0] == a);
    assert(s.drop_first() =~= rest);
}

proof fn lemma_apply_success_actions(p: JobPlan, files: Set<Seq<char>>)
    ensures
        apply_actions(files, success_actions(p)) =~= files.remove(p.input_path@).remove(
            p.output_path@,
        ),
{
    let a1 = ActionV::CreateFile(p.input_path@);
    let a2 = ActionV::DownloadTo(p.url@, p.input_path@);
    let a3 = ActionV::RunTool(p.debug, p.verbose, p.input_path@, p.output_path@);
    let a4 = ActionV::DeliverOutput(p.output_path@);
    let a5 = ActionV::RemoveFile(p.input_path@);
    let a6 = ActionV::RemoveFile(p.output_path@);
    assert(success_actions(p) =~= seq![a1] + (seq![a2] + (seq![a3] + (seq![a4] + (seq![a5]
        + (seq![a6] + Seq::<ActionV>::empty()))))));
    let f1 = apply_action(files, a1);
    let f2 = apply_action(f1, a2);
    let f3 = apply_action(f2, a3);
    let f4 = apply_action(f3, a4);
    let f5 = apply_action(f4, a5);
    let f6 = apply_action(f5, a6);
    lemma_apply_cons(files, a1, seq![a2] + (seq![a3] + (seq![a4] + (seq![a5] + (seq![a6]
        + Seq::<ActionV>::empty())))));
    lemma_apply_cons(f1, a2, seq![a3] + (seq![a4] + (seq![a5] + (seq![a6]
        + Seq::<ActionV>::empty()))));
    lemma_apply_cons(f2, a3, seq![a4] + (seq![a5] + (seq![a6] + Seq::<ActionV>::empty())));
    lemma_apply_cons(f3, a4, seq![a5] + (seq![a6] + Seq::<ActionV>::empty()));
    lemma_apply_cons(f4, a5, seq![a6] + Seq::<ActionV>::empty());
    lemma_apply_cons(f5, a6, Seq::<ActionV>::empty());
    assert(apply_actions(f6, Seq::<ActionV>::empty()) == f6);
    assert(f6 =~= files.remove(p.input_path@).remove(p.output_path@));
}

proof fn lemma_trace_preserves_other(
    p: JobPlan,
    st: Stage,
    evs: Seq<Event>,
    files: Set<Seq<char>>,
    q: Seq<char>,
)
    requires
        q != p.input_path@,
        q != p.output_path@,
    ensures
        apply_actions(files, trace_actions(p, st, evs)).contains(q) == files.contains(q),
    decreases evs.len(),
{
    if evs.len() > 0 {
        let next = advance_spec(p, st, evs[0]);
        let rest = trace_actions(p, next, evs.drop_first());
        match action_spec(p, st) {
            Some(a) => {
                lemma_apply_cons(files, a, rest);
                assert(apply_action(files, a).contains(q) == files.contains(q));
                lemma_trace_preserves_other(p, next, evs.drop_first(), apply_action(files, a), q);
            },
            None => {
                lemma_trace_preserves_other(p, next, evs.drop_first(), files, q);
            },
        }
    }
}

/// Whatever outcomes the external actions report, a run only ever creates
/// or removes the job's own two temp files: every other path's presence on
/// disk is unchanged. Together with
/// [`crate::paths::lemma_distinct_ids_no_collision`], two jobs with
/// distinct identifiers under one base directory never create or delete
/// each other's files.
pub proof fn lemma_only_own_files_touched(
    p: JobPlan,
    evs: Seq<Event>,
    files: Set<Seq<char>>,
    q: Seq<char>,
)
    requires
        q != p.input_path@,
        q != p.output_path@,
    ensures
        apply_actions(files, trace_actions(p, Stage::CreateInput, evs)).contains(q)
            == files.contains(q),
{
    lemma_trace_preserves_other(p, Stage::CreateInput, evs, files, q);
}

/// A successful run removes exactly the job's two temp files: afterwards
/// both are absent from disk and every other path is untouched. Running
/// the same job a second time (same identifier, same base directory, run
/// sequentially) performs the same trace and leaves the same set of files,
/// so repeated runs are idempotent and leave no residual files.
pub proof fn lemma_success_cleanup(p: JobPlan, files: Set<Seq<char>>)
    requires
        encodable(p),
    ensures
        ({
            let t = trace_actions(p, Stage::CreateInput, all_ok(6));
            let after = apply_actions(files, t);
            &&& after =~= files.remove(p.input_path@).remove(p.output_path@)
            &&& !after.contains(p.input_path@)
            &&& !after.contains(p.output_path@)
            &&& apply_actions(after, t) =~= after
        }),
{
    lemma_success_run(p);
    lemma_apply_success_actions(p, files);
    let t = trace_actions(p, Stage::CreateInput, all_ok(6));
    let after = apply_actions(files, t);
    lemma_apply_success_actions(p, after);
    assert(apply_actions(after, t) =~= after);
}

} // verus!
