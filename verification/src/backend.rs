//! The command processor: one owned record of what the backend is doing,
//! moved forward by commands and by the outcomes of the work it asks for.
//!
//! The processor itself touches nothing outside: each step returns what is to
//! be sent, whom to tell, and which piece of outside work to do next. Whoever
//! drives it does that work and hands back the outcome as an [`Event`].

use crate::error::{BackendError, BackendErrorView, ErrorKind};
use crate::pipeline::{ConfigFile, ConfigFileView, PipelineName, CACHE_DIR, PIPELINE_FILE};
use crate::repo::{repo_of, Repo, RepoView};
use crate::runner::{
    build_command, build_command_for, report_build_failure, report_of_build_failure,
    report_of_run, report_run, run_command, run_command_for, CommandLine, CommandLineView,
    EngineFailure, EngineFailureView, RunReport, RunReportView,
};
use crate::state::{BackendState, BackendStateView};
use crate::text::join;
use vstd::prelude::*;

verus! {

/// What a command that asks to run a pipeline is told while the backend
/// cannot start one.
pub const RUN_NOT_READY: &'static str =
    "backend is not available to run jobs at the moment. pls wait for job to finish.";

/// What follows [`RUN_NOT_READY`] while a pipeline runs, before its name.
pub const RUNNING_NOTE: &'static str = " currently running: ";

/// What a command that asks to clone is told while the backend cannot clone.
pub const CLONE_NOT_READY: &'static str =
    "backend is not available to clone at the moment. pls wait for job to finish.";

/// What is said of a configuration file that is missing or cannot be read.
pub const CONFIG_UNREADABLE: &'static str = "failed to read .dcicd.toml";

/// What stands between [`CONFIG_UNREADABLE`] and the parser's reason.
pub const REASON_SEPARATOR: &'static str = ", ";

/// The start of what is said of a pipeline that the file does not define.
pub const UNKNOWN_PIPELINE: &'static str = "unknown pipeline: ";

/// The start of what is said of a clone that failed.
pub const CLONE_FAILED: &'static str = "failed to clone repo: ";

/// What is said of a clone URL that is no URL.
pub const INVALID_URL: &'static str = "not a valid URL";

/// The start of what is said of an old checkout that could not be removed.
pub const REMOVAL_FAILED: &'static str = "failed to remove the old checkout: ";

/// What is said of an outcome that the backend was not waiting for.
pub const UNEXPECTED_EVENT: &'static str = "no operation is waiting for this outcome";

/// A request to the backend. `C` is what is handed back, together with a
/// message, when a pipeline run has ended: the caller's completion handle.
#[derive(Debug, PartialEq, Eq)]
pub enum CiCdCmd<C> {
    /// Check out the repository behind this URL in place of the current one.
    Clone(String),
    /// Run the named pipeline of the current checkout.
    RunPipeline { pipeline_name: PipelineName, on_complete: C },
    /// Send the log of the last run.
    GetLogs,
}

/// What a [`CiCdCmd`] holds.
pub enum CiCdCmdView<C> {
    Clone(Seq<char>),
    RunPipeline { pipeline_name: Seq<char>, on_complete: C },
    GetLogs,
}

impl<C> View for CiCdCmd<C> {
    type V = CiCdCmdView<C>;

    open spec fn view(&self) -> CiCdCmdView<C> {
        match self {
            CiCdCmd::Clone(url) => CiCdCmdView::Clone(url@),
            CiCdCmd::RunPipeline { pipeline_name, on_complete } => CiCdCmdView::RunPipeline {
                pipeline_name: pipeline_name@,
                on_complete: *on_complete,
            },
            CiCdCmd::GetLogs => CiCdCmdView::GetLogs,
        }
    }
}

/// The outcome of a piece of outside work that the backend asked for.
#[derive(Debug, PartialEq, Eq)]
pub enum Event {
    /// The configuration file was looked for and read.
    ConfigRead(ConfigFile),
    /// The image build has ended.
    ImageBuilt(Result<(), EngineFailure>),
    /// The container has ended; on success, with what it wrote.
    RunFinished(Result<Vec<u8>, EngineFailure>),
    /// The old checkout is gone, or could not be removed for the reason given.
    WorkdirRemoved(Result<(), String>),
    /// The clone has ended, on failure with the reason given.
    RepoCloned(Result<(), String>),
}

/// What an [`Event`] holds.
pub enum EventView {
    ConfigRead(ConfigFileView),
    ImageBuilt(Result<(), EngineFailureView>),
    RunFinished(Result<Seq<u8>, EngineFailureView>),
    WorkdirRemoved(Result<(), Seq<char>>),
    RepoCloned(Result<(), Seq<char>>),
}

impl View for Event {
    type V = EventView;

    open spec fn view(&self) -> EventView {
        match self {
            Event::ConfigRead(file) => EventView::ConfigRead(file@),
            Event::ImageBuilt(outcome) => EventView::ImageBuilt(
                match outcome {
                    Ok(_) => Ok(()),
                    Err(failure) => Err(failure@),
                },
            ),
            Event::RunFinished(outcome) => EventView::RunFinished(
                match outcome {
                    Ok(bytes) => Ok(bytes@),
                    Err(failure) => Err(failure@),
                },
            ),
            Event::WorkdirRemoved(outcome) => EventView::WorkdirRemoved(
                match outcome {
                    Ok(_) => Ok(()),
                    Err(reason) => Err(reason@),
                },
            ),
            Event::RepoCloned(outcome) => EventView::RepoCloned(
                match outcome {
                    Ok(_) => Ok(()),
                    Err(reason) => Err(reason@),
                },
            ),
        }
    }
}

/// A piece of outside work that the backend asks for. Its outcome comes back
/// as the [`Event`] of the same kind.
#[derive(Debug, PartialEq, Eq)]
pub enum Request {
    /// Read the configuration file at `path`.
    ReadConfig { path: String },
    /// Build the image with this command.
    BuildImage(CommandLine),
    /// Run the container with this command, apart from the processor.
    RunContainer(CommandLine),
    /// Remove the directory at `path` with all it holds, if it is there.
    RemoveWorkdir { path: String },
    /// Clone the repository at `url` into the directory `into`.
    CloneRepo { url: String, into: String },
}

/// What a [`Request`] holds.
pub enum RequestView {
    ReadConfig { path: Seq<char> },
    BuildImage(CommandLineView),
    RunContainer(CommandLineView),
    RemoveWorkdir { path: Seq<char> },
    CloneRepo { url: Seq<char>, into: Seq<char> },
}

impl DeepView for Request {
    type V = RequestView;

    open spec fn deep_view(&self) -> RequestView {
        match self {
            Request::ReadConfig { path } => RequestView::ReadConfig { path: path@ },
            Request::BuildImage(command) => RequestView::BuildImage(command@),
            Request::RunContainer(command) => RequestView::RunContainer(command@),
            Request::RemoveWorkdir { path } => RequestView::RemoveWorkdir { path: path@ },
            Request::CloneRepo { url, into } => RequestView::CloneRepo { url: url@, into: into@ },
        }
    }
}

/// What one step of the backend asks of its driver.
#[derive(Debug, PartialEq, Eq)]
pub struct Step<C> {
    /// How the command fared so far: the error, if it was rejected or failed.
    pub result: Result<(), BackendError>,
    /// What is to be sent on the outbound channel.
    pub output: Option<String>,
    /// The completion handle of the run that has ended, with the message for it.
    pub completed: Option<(C, String)>,
    /// The outside work to do next.
    pub request: Option<Request>,
}

/// What a [`Step`] holds.
pub struct StepView<C> {
    pub result: Result<(), BackendErrorView>,
    pub output: Option<Seq<char>>,
    pub completed: Option<(C, Seq<char>)>,
    pub request: Option<RequestView>,
}

impl<C> View for Step<C> {
    type V = StepView<C>;

    open spec fn view(&self) -> StepView<C> {
        StepView {
            result: match self.result {
                Ok(_) => Ok(()),
                Err(error) => Err(error@),
            },
            output: self.output.deep_view(),
            completed: match self.completed {
                Some((handle, message)) => Some((handle, message@)),
                None => None,
            },
            request: self.request.deep_view(),
        }
    }
}

impl<C> StepView<C> {
    /// A step that only goes on: nothing to send, nobody to tell.
    pub open spec fn proceed(request: Option<RequestView>) -> StepView<C> {
        StepView { result: Ok(()), output: None, completed: None, request }
    }

    /// A step that rejects or fails a command and says so on the outbound
    /// channel, in the words of the error.
    pub open spec fn reject(kind: ErrorKind, message: Seq<char>) -> StepView<C> {
        StepView {
            result: Err(BackendErrorView { kind, message }),
            output: Some(message),
            completed: None,
            request: None,
        }
    }
}

/// What the backend is doing.
enum Activity<C> {
    /// Nothing; `loaded` is the repository that is checked out, if any.
    Idle { loaded: Option<Repo> },
    /// A run of `pipeline_name` was asked for; the configuration file is being read.
    ReadingConfig { repo: Repo, pipeline_name: PipelineName, on_complete: C },
    /// The image of the pipeline is being built.
    Building { repo: Repo, pipeline_name: PipelineName, on_complete: C },
    /// The container of the pipeline runs.
    Running { repo: Repo, pipeline_name: PipelineName, on_complete: C },
    /// The old checkout is being removed to make room for `next`.
    Removing { loaded: Option<Repo>, next: Repo },
    /// `next` is being cloned.
    Cloning { loaded: Option<Repo>, next: Repo },
}

/// What the backend is doing, as a value of the model.
pub enum ActivityView<C> {
    Idle { loaded: Option<RepoView> },
    ReadingConfig { repo: RepoView, pipeline_name: Seq<char>, on_complete: C },
    Building { repo: RepoView, pipeline_name: Seq<char>, on_complete: C },
    Running { repo: RepoView, pipeline_name: Seq<char>, on_complete: C },
    Removing { loaded: Option<RepoView>, next: RepoView },
    Cloning { loaded: Option<RepoView>, next: RepoView },
}

impl<C> ActivityView<C> {
    /// The state that an idle backend is in.
    pub open spec fn idle_state(loaded: Option<RepoView>) -> BackendStateView {
        match loaded {
            Some(repo) => BackendStateView::Available { repo },
            None => BackendStateView::NotConfigured,
        }
    }

    /// The backend's state, as others see it. A pipeline counts as running
    /// from the moment its definition has been found until its run has ended;
    /// a clone changes nothing before it has succeeded.
    pub open spec fn state(self) -> BackendStateView {
        match self {
            ActivityView::Idle { loaded } => Self::idle_state(loaded),
            ActivityView::ReadingConfig { repo, .. } => BackendStateView::Available { repo },
            ActivityView::Building { repo, pipeline_name, .. } => BackendStateView::RunningPipeline {
                repo,
                pipeline: pipeline_name,
            },
            ActivityView::Running { repo, pipeline_name, .. } => BackendStateView::RunningPipeline {
                repo,
                pipeline: pipeline_name,
            },
            ActivityView::Removing { loaded, .. } => Self::idle_state(loaded),
            ActivityView::Cloning { loaded, .. } => Self::idle_state(loaded),
        }
    }
}

/// The model of a [`Backend`]: what it is doing, and the log of the last run.
pub struct BackendView<C> {
    pub activity: ActivityView<C>,
    pub logs: Seq<char>,
}

impl<C> BackendView<C> {
    /// The backend's state, as others see it.
    pub open spec fn state(self) -> BackendStateView {
        self.activity.state()
    }

    /// The backend at rest, with the same log.
    pub open spec fn at_rest(self, loaded: Option<RepoView>) -> BackendView<C> {
        BackendView { activity: ActivityView::Idle { loaded }, logs: self.logs }
    }

    /// The backend doing `activity`, with the same log.
    pub open spec fn doing(self, activity: ActivityView<C>) -> BackendView<C> {
        BackendView { activity, logs: self.logs }
    }
}

/// Where the configuration file of the checkout is.
pub open spec fn config_path() -> Seq<char> {
    CACHE_DIR@ + PIPELINE_FILE@
}

/// What a command that asks for a run is told in `state`, which does not let
/// one start: that the backend is not available, and which pipeline runs, if
/// one does.
pub open spec fn run_not_ready_message(state: BackendStateView) -> Seq<char> {
    match state {
        BackendStateView::RunningPipeline { pipeline, .. } => RUN_NOT_READY@ + RUNNING_NOTE@
            + pipeline,
        _ => RUN_NOT_READY@,
    }
}

/// The backend after the run in progress has ended with `report`: at rest
/// with the same repository, the log overwritten; and the step that tells the
/// caller of the run.
pub open spec fn run_ended<C>(
    repo: RepoView,
    on_complete: C,
    report: RunReportView,
) -> (BackendView<C>, StepView<C>) {
    (
        BackendView { activity: ActivityView::Idle { loaded: Some(repo) }, logs: report.log },
        StepView {
            result: match report.error {
                Some(error) => Err(error),
                None => Ok(()),
            },
            output: None,
            completed: Some((on_complete, report.message)),
            request: None,
        },
    )
}

/// How the backend takes a command: the backend after it, and the step asked
/// of the driver.
///
/// - `GetLogs` is always served: the log goes to the outbound channel.
/// - `Clone` is taken up only at rest; the URL has to be one. The old
///   checkout's removal is asked for first.
/// - `RunPipeline` is taken up only at rest with a repository loaded. The
///   reading of the configuration file is asked for first.
///
/// A command that is not taken up leaves the backend as it was.
pub open spec fn process_spec<C>(s: BackendView<C>, cmd: CiCdCmdView<C>) -> (
    BackendView<C>,
    StepView<C>,
) {
    match cmd {
        CiCdCmdView::GetLogs => (
            s,
            StepView { result: Ok(()), output: Some(s.logs), completed: None, request: None },
        ),
        CiCdCmdView::Clone(url) => match s.activity {
            ActivityView::Idle { loaded } => match repo_of(url) {
                Some(next) => (
                    s.doing(ActivityView::Removing { loaded, next }),
                    StepView::proceed(Some(RequestView::RemoveWorkdir { path: CACHE_DIR@ })),
                ),
                None => (s, StepView::reject(ErrorKind::RepositoryOpFailed, CLONE_FAILED@ + INVALID_URL@)),
            },
            _ => (s, StepView::reject(ErrorKind::NotReady, CLONE_NOT_READY@)),
        },
        CiCdCmdView::RunPipeline { pipeline_name, on_complete } => match s.activity {
            ActivityView::Idle { loaded: Some(repo) } => (
                s.doing(ActivityView::ReadingConfig { repo, pipeline_name, on_complete }),
                StepView::proceed(Some(RequestView::ReadConfig { path: config_path() })),
            ),
            _ => (s, StepView::reject(ErrorKind::NotReady, run_not_ready_message(s.state()))),
        },
    }
}

/// How the backend takes the outcome of outside work: the backend after it,
/// and the step asked of the driver. An outcome that the backend is not
/// waiting for changes nothing.
pub open spec fn resume_spec<C>(s: BackendView<C>, event: EventView) -> (
    BackendView<C>,
    StepView<C>,
) {
    match (s.activity, event) {
        (
            ActivityView::ReadingConfig { repo, pipeline_name, on_complete },
            EventView::ConfigRead(file),
        ) => match file {
            ConfigFileView::Missing => (
                s.at_rest(Some(repo)),
                StepView::reject(ErrorKind::ConfigMissing, CONFIG_UNREADABLE@),
            ),
            ConfigFileView::Invalid(reason) => (
                s.at_rest(Some(repo)),
                StepView {
                    result: Err(
                        BackendErrorView {
                            kind: ErrorKind::ConfigInvalid,
                            message: CONFIG_UNREADABLE@ + REASON_SEPARATOR@ + reason,
                        },
                    ),
                    output: Some(CONFIG_UNREADABLE@),
                    completed: None,
                    request: None,
                },
            ),
            ConfigFileView::Parsed(pipelines) => if pipelines.contains_key(pipeline_name) {
                (
                    s.doing(ActivityView::Building { repo, pipeline_name, on_complete }),
                    StepView::proceed(
                        Some(RequestView::BuildImage(build_command_for(pipelines[pipeline_name]))),
                    ),
                )
            } else {
                (
                    s.at_rest(Some(repo)),
                    StepView::reject(ErrorKind::PipelineNotFound, UNKNOWN_PIPELINE@ + pipeline_name),
                )
            },
        },
        (
            ActivityView::Building { repo, pipeline_name, on_complete },
            EventView::ImageBuilt(outcome),
        ) => match outcome {
            Ok(_) => (
                s.doing(ActivityView::Running { repo, pipeline_name, on_complete }),
                StepView::proceed(Some(RequestView::RunContainer(run_command_for(pipeline_name)))),
            ),
            Err(failure) => run_ended(repo, on_complete, report_of_build_failure(failure)),
        },
        (
            ActivityView::Running { repo, pipeline_name, on_complete },
            EventView::RunFinished(outcome),
        ) => run_ended(repo, on_complete, report_of_run(outcome)),
        (ActivityView::Removing { loaded, next }, EventView::WorkdirRemoved(outcome)) => match outcome {
            Ok(_) => (
                s.doing(ActivityView::Cloning { loaded, next }),
                StepView::proceed(Some(RequestView::CloneRepo { url: next.url, into: CACHE_DIR@ })),
            ),
            Err(reason) => (
                s.at_rest(loaded),
                StepView::reject(ErrorKind::RepositoryOpFailed, REMOVAL_FAILED@ + reason),
            ),
        },
        (ActivityView::Cloning { loaded, next }, EventView::RepoCloned(outcome)) => match outcome {
            Ok(_) => (s.at_rest(Some(next)), StepView::proceed(None)),
            Err(reason) => (
                s.at_rest(loaded),
                StepView::reject(ErrorKind::RepositoryOpFailed, CLONE_FAILED@ + reason),
            ),
        },
        _ => (
            s,
            StepView {
                result: Err(
                    BackendErrorView { kind: ErrorKind::NotReady, message: UNEXPECTED_EVENT@ },
                ),
                output: None,
                completed: None,
                request: None,
            },
        ),
    }
}

impl<C> View for Activity<C> {
    type V = ActivityView<C>;

    closed spec fn view(&self) -> ActivityView<C> {
        match self {
            Activity::Idle { loaded } => ActivityView::Idle { loaded: loaded_view(*loaded) },
            Activity::ReadingConfig { repo, pipeline_name, on_complete } => ActivityView::ReadingConfig {
                repo: repo@,
                pipeline_name: pipeline_name@,
                on_complete: *on_complete,
            },
            Activity::Building { repo, pipeline_name, on_complete } => ActivityView::Building {
                repo: repo@,
                pipeline_name: pipeline_name@,
                on_complete: *on_complete,
            },
            Activity::Running { repo, pipeline_name, on_complete } => ActivityView::Running {
                repo: repo@,
                pipeline_name: pipeline_name@,
                on_complete: *on_complete,
            },
            Activity::Removing { loaded, next } => ActivityView::Removing {
                loaded: loaded_view(*loaded),
                next: next@,
            },
            Activity::Cloning { loaded, next } => ActivityView::Cloning {
                loaded: loaded_view(*loaded),
                next: next@,
            },
        }
    }
}

/// The view of the repository that is loaded, if one is.
spec fn loaded_view(loaded: Option<Repo>) -> Option<RepoView> {
    match loaded {
        Some(repo) => Some(repo@),
        None => None,
    }
}

/// The backend: the one owner of the backend's state and of the log.
pub struct Backend<C> {
    activity: Activity<C>,
    logs: String,
}

impl<C> View for Backend<C> {
    type V = BackendView<C>;

    closed spec fn view(&self) -> BackendView<C> {
        BackendView { activity: self.activity@, logs: self.logs@ }
    }
}

/// A step that only goes on.
fn proceed<C>(request: Option<Request>) -> (step: Step<C>)
    ensures
        step@ == StepView::<C>::proceed(request.deep_view()),
{
    Step { result: Ok(()), output: None, completed: None, request }
}

/// A step that rejects or fails a command and says so on the outbound channel.
fn reject<C>(kind: ErrorKind, message: String) -> (step: Step<C>)
    ensures
        step@ == StepView::<C>::reject(kind, message@),
{
    Step {
        result: Err(BackendError { kind, message: message.clone() }),
        output: Some(message),
        completed: None,
        request: None,
    }
}

/// The step that tells the caller of a run that has ended.
fn conclude<C>(on_complete: C, report: RunReport) -> (step: Step<C>)
    ensures
        step@ == (StepView {
            result: match report@.error {
                Some(error) => Err(error),
                None => Ok(()),
            },
            output: None,
            completed: Some((on_complete, report@.message)),
            request: None,
        }),
{
    let RunReport { log, message, error } = report;
    let result = match error {
        Some(error) => Err(error),
        None => Ok(()),
    };
    Step { result, output: None, completed: Some((on_complete, message)), request: None }
}

/// The state of a backend at rest.
fn idle_state(loaded: &Option<Repo>) -> (state: BackendState)
    ensures
        state@ == ActivityView::<()>::idle_state(loaded_view(*loaded)),
{
    match loaded {
        Some(repo) => BackendState::Available { repo: repo.clone() },
        None => BackendState::NotConfigured,
    }
}

/// What a command that asks for a run is told in `state`.
pub fn run_not_ready(state: &BackendState) -> (message: String)
    ensures
        message@ == run_not_ready_message(state@),
{
    match state {
        BackendState::RunningPipeline { repo, pipeline } => {
            let start = join(RUN_NOT_READY, RUNNING_NOTE);
            join(start.as_str(), pipeline.as_str())
        },
        _ => RUN_NOT_READY.to_owned(),
    }
}

impl<C> Backend<C> {
    /// A backend with no repository loaded and an empty log.
    pub fn new() -> (backend: Backend<C>)
        ensures
            backend@ == (BackendView::<C> {
                activity: ActivityView::Idle { loaded: None },
                logs: Seq::<char>::empty(),
            }),
    {
        Backend { activity: Activity::Idle { loaded: None }, logs: String::new() }
    }

    /// The state of the backend at this moment.
    pub fn current(&self) -> (state: BackendState)
        ensures
            state@ == self@.state(),
    {
        match &self.activity {
            Activity::Idle { loaded } => idle_state(loaded),
            Activity::ReadingConfig { repo, .. } => BackendState::Available { repo: repo.clone() },
            Activity::Building { repo, pipeline_name, .. } => BackendState::RunningPipeline {
                repo: repo.clone(),
                pipeline: pipeline_name.clone(),
            },
            Activity::Running { repo, pipeline_name, .. } => BackendState::RunningPipeline {
                repo: repo.clone(),
                pipeline: pipeline_name.clone(),
            },
            Activity::Removing { loaded, .. } => idle_state(loaded),
            Activity::Cloning { loaded, .. } => idle_state(loaded),
        }
    }

    /// The log of the last run that has ended.
    pub fn logs(&self) -> (logs: String)
        ensures
            logs@ == self@.logs,
    {
        self.logs.clone()
    }

    /// Whether the backend waits for the outcome of outside work that the
    /// processor itself has asked for, a container's run apart.
    pub fn is_busy(&self) -> (busy: bool)
        ensures
            busy == !(self@.activity is Idle || self@.activity is Running),
    {
        match &self.activity {
            Activity::Idle { .. } => false,
            Activity::Running { .. } => false,
            _ => true,
        }
    }

    /// Takes a command.
    pub fn process(&mut self, msg: CiCdCmd<C>) -> (step: Step<C>)
        ensures
            (final(self)@, step@) == process_spec(old(self)@, msg@),
    {
        match msg {
            CiCdCmd::GetLogs => Step {
                result: Ok(()),
                output: Some(self.logs.clone()),
                completed: None,
                request: None,
            },
            CiCdCmd::Clone(url) => {
                let mut activity = Activity::Idle { loaded: None };
                core::mem::swap(&mut self.activity, &mut activity);
                match activity {
                    Activity::Idle { loaded } => match Repo::from_url(url.as_str()) {
                        Some(next) => {
                            self.activity = Activity::Removing { loaded, next };
                            proceed(Some(Request::RemoveWorkdir { path: CACHE_DIR.to_owned() }))
                        },
                        None => {
                            self.activity = Activity::Idle { loaded };
                            reject(ErrorKind::RepositoryOpFailed, join(CLONE_FAILED, INVALID_URL))
                        },
                    },
                    other => {
                        self.activity = other;
                        reject(ErrorKind::NotReady, CLONE_NOT_READY.to_owned())
                    },
                }
            },
            CiCdCmd::RunPipeline { pipeline_name, on_complete } => {
                let state = self.current();
                let mut activity = Activity::Idle { loaded: None };
                core::mem::swap(&mut self.activity, &mut activity);
                match activity {
                    Activity::Idle { loaded: Some(repo) } => {
                        self.activity = Activity::ReadingConfig { repo, pipeline_name, on_complete };
                        proceed(Some(Request::ReadConfig { path: join(CACHE_DIR, PIPELINE_FILE) }))
                    },
                    other => {
                        self.activity = other;
                        reject(ErrorKind::NotReady, run_not_ready(&state))
                    },
                }
            },
        }
    }

    /// Takes the outcome of outside work.
    pub fn resume(&mut self, event: Event) -> (step: Step<C>)
        ensures
            (final(self)@, step@) == resume_spec(old(self)@, event@),
    {
        let mut activity = Activity::Idle { loaded: None };
        core::mem::swap(&mut self.activity, &mut activity);
        match (activity, event) {
            (
                Activity::ReadingConfig { repo, pipeline_name, on_complete },
                Event::ConfigRead(file),
            ) => match file {
                ConfigFile::Missing => {
                    self.activity = Activity::Idle { loaded: Some(repo) };
                    reject(ErrorKind::ConfigMissing, CONFIG_UNREADABLE.to_owned())
                },
                ConfigFile::Invalid(reason) => {
                    self.activity = Activity::Idle { loaded: Some(repo) };
                    let start = join(CONFIG_UNREADABLE, REASON_SEPARATOR);
                    Step {
                        result: Err(
                            BackendError {
                                kind: ErrorKind::ConfigInvalid,
                                message: join(start.as_str(), reason.as_str()),
                            },
                        ),
                        output: Some(CONFIG_UNREADABLE.to_owned()),
                        completed: None,
                        request: None,
                    }
                },
                ConfigFile::Parsed(pipelines) => match pipelines.get(pipeline_name.as_str()) {
                    Some(pipeline) => {
                        let command = build_command(pipeline);
                        self.activity = Activity::Building { repo, pipeline_name, on_complete };
                        proceed(Some(Request::BuildImage(command)))
                    },
                    None => {
                        self.activity = Activity::Idle { loaded: Some(repo) };
                        reject(
                            ErrorKind::PipelineNotFound,
                            join(UNKNOWN_PIPELINE, pipeline_name.as_str()),
                        )
                    },
                },
            },
            (
                Activity::Building { repo, pipeline_name, on_complete },
                Event::ImageBuilt(outcome),
            ) => match outcome {
                Ok(_) => {
                    let command = run_command(pipeline_name.as_str());
                    self.activity = Activity::Running { repo, pipeline_name, on_complete };
                    proceed(Some(Request::RunContainer(command)))
                },
                Err(failure) => {
                    let report = report_build_failure(&failure);
                    self.activity = Activity::Idle { loaded: Some(repo) };
                    self.logs = report.log.clone();
                    conclude(on_complete, report)
                },
            },
            (
                Activity::Running { repo, pipeline_name, on_complete },
                Event::RunFinished(outcome),
            ) => {
                let report = report_run(&outcome);
                self.activity = Activity::Idle { loaded: Some(repo) };
                self.logs = report.log.clone();
                conclude(on_complete, report)
            },
            (Activity::Removing { loaded, next }, Event::WorkdirRemoved(outcome)) => match outcome {
                Ok(_) => {
                    let url = next.url.clone();
                    self.activity = Activity::Cloning { loaded, next };
                    proceed(Some(Request::CloneRepo { url, into: CACHE_DIR.to_owned() }))
                },
                Err(reason) => {
                    self.activity = Activity::Idle { loaded };
                    reject(ErrorKind::RepositoryOpFailed, join(REMOVAL_FAILED, reason.as_str()))
                },
            },
            (Activity::Cloning { loaded, next }, Event::RepoCloned(outcome)) => match outcome {
                Ok(_) => {
                    self.activity = Activity::Idle { loaded: Some(next) };
                    proceed(None)
                },
                Err(reason) => {
                    self.activity = Activity::Idle { loaded };
                    reject(ErrorKind::RepositoryOpFailed, join(CLONE_FAILED, reason.as_str()))
                },
            },
            (other, _) => {
                self.activity = other;
                Step {
                    result: Err(
                        BackendError {
                            kind: ErrorKind::NotReady,
                            message: UNEXPECTED_EVENT.to_owned(),
                        },
                    ),
                    output: None,
                    completed: None,
                    request: None,
                }
            },
        }
    }
}

} // verus!
