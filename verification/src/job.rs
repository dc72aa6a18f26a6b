//! The job state machine.
//!
//! One job fetches an image, runs the external processing routine on it and
//! delivers the result, in strictly sequential stages. The machine here
//! decides, from the current stage and the outcome of the last external
//! action, which stage comes next and which action the runner must perform;
//! the runner (outside this crate) performs the network, filesystem and
//! foreign calls and reports each outcome back as an [`Event`]. The first
//! failure aborts all remaining stages and becomes the job's result; no
//! stage is ever retried.

use vstd::prelude::*;
use crate::paths::contains_nul;
use crate::paths::has_nul;
use crate::paths::input_path;
use crate::paths::input_path_spec;
use crate::paths::output_path;
use crate::paths::output_path_spec;

verus! {

/// A job's failure reasons. The first failure encountered is the job's
/// result, preserved as-is.
#[derive(Clone, Copy, PartialEq, Eq, Structural, Debug)]
pub enum JobError {
    /// The HTTP request could not be sent or the connection dropped.
    NetworkError,
    /// A file could not be created, written or removed.
    IoError,
    /// A path cannot be represented in the foreign boundary's byte-string
    /// form.
    PathEncodingError,
    /// The caller's delivery callback reported failure.
    DeliveryError,
}

/// The stage a job is in. Stages advance strictly in the order
/// `CreateInput`, `Download`, `Process`, `Deliver`, `RemoveInput`,
/// `RemoveOutput`, `Done`; the first failure moves to `Failed` instead.
#[derive(Clone, Copy, PartialEq, Eq, Structural, Debug)]
pub enum Stage {
    /// The input temp file is to be created.
    CreateInput,
    /// The response body is to be streamed into the input file.
    Download,
    /// The foreign processing routine is to be invoked.
    Process,
    /// The output path is to be handed to the delivery callback.
    Deliver,
    /// The input temp file is to be removed.
    RemoveInput,
    /// The output temp file is to be removed.
    RemoveOutput,
    /// The job finished; both temp files were removed.
    Done,
    /// The job failed; no further action is taken.
    Failed(JobError),
}

/// The outcome of one external action, reported by the runner.
#[derive(Clone, Copy, PartialEq, Eq, Structural, Debug)]
pub enum Event {
    /// The requested action completed.
    Succeeded,
    /// The requested action failed for the given reason.
    Failed(JobError),
}

/// One request to fetch, process and deliver a single image.
///
/// The identifier must be unique among concurrently running jobs that share
/// the same base directory: it is the sole collision-avoidance mechanism
/// for the temp file names.
pub struct Options<'options> {
    /// The image is fetched from here with one HTTP GET.
    pub url: &'options str,
    /// Base directory under which both temp files are placed.
    pub tmp_dir: String,
    /// Job identifier; determines the temp file names.
    pub id: usize,
    /// Passed through to the foreign processing routine.
    pub debug: bool,
    /// Passed through to the foreign processing routine.
    pub verbose: bool,
}

/// A job's immutable working data: the URL, the two derived temp paths and
/// the two processing flags.
pub struct JobPlan {
    /// The source URL.
    pub url: String,
    /// `<tmp_dir>/tmp-input-<id>`.
    pub input_path: String,
    /// `<tmp_dir>/tmp-output-<id>.png`.
    pub output_path: String,
    /// Passed through to the foreign processing routine.
    pub debug: bool,
    /// Passed through to the foreign processing routine.
    pub verbose: bool,
}

/// An external action the runner must perform for the machine.
#[derive(Clone, PartialEq, Eq, Debug)]
pub enum Action {
    /// Create (truncate) the file at the given path for writing.
    CreateFile(String),
    /// Stream one HTTP GET of the first path (the URL) into the file at the
    /// second path.
    DownloadTo(String, String),
    /// Invoke the foreign processing routine once with the debug flag, the
    /// verbose flag, the input path and the output path.
    RunTool(bool, bool, String, String),
    /// Invoke the delivery callback once with the output path.
    DeliverOutput(String),
    /// Remove the file at the given path.
    RemoveFile(String),
}

/// The mathematical shape of an [`Action`]: the same constructors over
/// character sequences.
pub enum ActionV {
    /// Create (truncate) the file at the given path for writing.
    CreateFile(Seq<char>),
    /// Stream one HTTP GET of the URL into the file at the second path.
    DownloadTo(Seq<char>, Seq<char>),
    /// Invoke the foreign processing routine once.
    RunTool(bool, bool, Seq<char>, Seq<char>),
    /// Invoke the delivery callback once with the output path.
    DeliverOutput(Seq<char>),
    /// Remove the file at the given path.
    RemoveFile(Seq<char>),
}

impl View for Action {
    type V = ActionV;

    open spec fn view(&self) -> ActionV {
        match self {
            Action::CreateFile(p) => ActionV::CreateFile(p@),
            Action::DownloadTo(u, p) => ActionV::DownloadTo(u@, p@),
            Action::RunTool(d, v, i, o) => ActionV::RunTool(*d, *v, i@, o@),
            Action::DeliverOutput(p) => ActionV::DeliverOutput(p@),
            Action::RemoveFile(p) => ActionV::RemoveFile(p@),
        }
    }
}

/// The view of an optional action.
pub open spec fn action_view(a: Option<Action>) -> Option<ActionV> {
    match a {
        Some(act) => Some(act@),
        None => None,
    }
}

/// A plan is well formed when its paths are the ones derived from some base
/// directory and identifier.
pub open spec fn plan_wf(p: JobPlan, base: Seq<char>, id: nat) -> bool {
    &&& p.input_path@ == input_path_spec(base, id)
    &&& p.output_path@ == output_path_spec(base, id)
}

/// Both paths can be represented in the foreign boundary's byte-string
/// form: neither holds an embedded terminator.
pub open spec fn encodable(p: JobPlan) -> bool {
    !contains_nul(p.input_path@) && !contains_nul(p.output_path@)
}

/// Derives a job's working data from its request: the URL and flags are
/// taken over unchanged, the two temp paths are derived from the base
/// directory and the identifier.
pub fn plan(options: &Options<'_>) -> (p: JobPlan)
    ensures
        p.url@ == options.url@,
        p.debug == options.debug,
        p.verbose == options.verbose,
        plan_wf(p, options.tmp_dir@, options.id as nat),
{
    JobPlan {
        url: options.url.to_owned(),
        input_path: input_path(options.tmp_dir.as_str(), options.id),
        output_path: output_path(options.tmp_dir.as_str(), options.id),
        debug: options.debug,
        verbose: options.verbose,
    }
}

/// Checks that both temp paths can cross the foreign boundary.
pub fn paths_encodable(p: &JobPlan) -> (b: bool)
    ensures
        b == encodable(*p),
{
    !has_nul(p.input_path.as_str()) && !has_nul(p.output_path.as_str())
}

/// The stage every job starts in.
pub fn initial_stage() -> (st: Stage)
    ensures
        st == Stage::CreateInput,
{
    Stage::CreateInput
}

/// The machine's transition function. A failure event moves any running
/// stage to `Failed` with that reason; `Done` and `Failed` absorb every
/// event; on success the stages advance in order, except that leaving
/// `Download` requires both paths to be encodable — otherwise the job fails
/// with `PathEncodingError` before the foreign routine is ever invoked.
pub open spec fn advance_spec(p: JobPlan, st: Stage, ev: Event) -> Stage {
    match (st, ev) {
        (Stage::Done, _) => Stage::Done,
        (Stage::Failed(e), _) => Stage::Failed(e),
        (_, Event::Failed(e)) => Stage::Failed(e),
        (Stage::CreateInput, Event::Succeeded) => Stage::Download,
        (Stage::Download, Event::Succeeded) => if encodable(p) {
            Stage::Process
        } else {
            Stage::Failed(JobError::PathEncodingError)
        },
        (Stage::Process, Event::Succeeded) => Stage::Deliver,
        (Stage::Deliver, Event::Succeeded) => Stage::RemoveInput,
        (Stage::RemoveInput, Event::Succeeded) => Stage::RemoveOutput,
        (Stage::RemoveOutput, Event::Succeeded) => Stage::Done,
    }
}

/// Advances the machine by one reported outcome.
pub fn advance(p: &JobPlan, st: Stage, ev: Event) -> (next: Stage)
    ensures
        next == advance_spec(*p, st, ev),
{
    match (st, ev) {
        (Stage::Done, _) => Stage::Done,
        (Stage::Failed(e), _) => Stage::Failed(e),
        (_, Event::Failed(e)) => Stage::Failed(e),
        (Stage::CreateInput, Event::Succeeded) => Stage::Download,
        (Stage::Download, Event::Succeeded) => if paths_encodable(p) {
            Stage::Process
        } else {
            Stage::Failed(JobError::PathEncodingError)
        },
        (Stage::Process, Event::Succeeded) => Stage::Deliver,
        (Stage::Deliver, Event::Succeeded) => Stage::RemoveInput,
        (Stage::RemoveInput, Event::Succeeded) => Stage::RemoveOutput,
        (Stage::RemoveOutput, Event::Succeeded) => Stage::Done,
    }
}

/// The action owed in each stage: `Done` and `Failed` owe none; every
/// running stage owes exactly one.
pub open spec fn action_spec(p: JobPlan, st: Stage) -> Option<ActionV> {
    match st {
        Stage::CreateInput => Some(ActionV::CreateFile(p.input_path@)),
        Stage::Download => Some(ActionV::DownloadTo(p.url@, p.input_path@)),
        Stage::Process => Some(
            ActionV::RunTool(p.debug, p.verbose, p.input_path@, p.output_path@),
        ),
        Stage::Deliver => Some(ActionV::DeliverOutput(p.output_path@)),
        Stage::RemoveInput => Some(ActionV::RemoveFile(p.input_path@)),
        Stage::RemoveOutput => Some(ActionV::RemoveFile(p.output_path@)),
        Stage::Done => None,
        Stage::Failed(_) => None,
    }
}

/// The action the runner must perform next, or `None` once the job is
/// terminal.
pub fn action_for(p: &JobPlan, st: Stage) -> (a: Option<Action>)
    ensures
        action_view(a) == action_spec(*p, st),
{
    match st {
        Stage::CreateInput => Some(Action::CreateFile(p.input_path.clone())),
        Stage::Download => Some(Action::DownloadTo(p.url.clone(), p.input_path.clone())),
        Stage::Process => Some(
            Action::RunTool(p.debug, p.verbose, p.input_path.clone(), p.output_path.clone()),
        ),
        Stage::Deliver => Some(Action::DeliverOutput(p.output_path.clone())),
        Stage::RemoveInput => Some(Action::RemoveFile(p.input_path.clone())),
        Stage::RemoveOutput => Some(Action::RemoveFile(p.output_path.clone())),
        Stage::Done => None,
        Stage::Failed(_) => None,
    }
}

} // verus!
