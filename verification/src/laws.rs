//! What holds of the backend whatever it is asked to do.

use crate::backend::{
    config_path, process_spec, resume_spec, run_not_ready_message, ActivityView, BackendView,
    CiCdCmdView, EventView, RequestView, StepView, CLONE_NOT_READY, UNKNOWN_PIPELINE,
};
use crate::error::ErrorKind;
use crate::pipeline::{ConfigFileView, PipelineView, CACHE_DIR};
use crate::processor::{run_spec, step_spec, InputView};
use crate::repo::{repo_of, RepoView};
use crate::runner::{
    build_command_for, lossy_text, report_of_build_failure, report_of_run, run_command_for,
    EngineFailureView, RunReportView, LAUNCH_DIAGNOSTIC, RUN_FAILED, RUN_SUCCEEDED,
};
use crate::state::BackendStateView;
use vstd::prelude::*;

verus! {

/// Whether the backend's state may change from `before` to `after` in one
/// step: not at all; to a repository that has just been cloned, unless a
/// pipeline runs; from idle to running a pipeline of the same repository; or
/// from running back to idle with the same repository.
pub open spec fn lawful_move(before: BackendStateView, after: BackendStateView) -> bool {
    ||| after == before
    ||| before.accepts_clone() && after is Available
    ||| before.started(after->pipeline) == Some(after)
    ||| before is RunningPipeline && after == before.finished()
}

/// The report of the run that this step ends, if it ends one: a run ends
/// when its image could not be built, or when its container has ended.
pub open spec fn ended_run<C>(s: BackendView<C>, input: InputView<C>) -> Option<RunReportView> {
    match (s.activity, input) {
        (ActivityView::Building { .. }, InputView::Outcome(EventView::ImageBuilt(Err(failure)))) => Some(
            report_of_build_failure(failure),
        ),
        (ActivityView::Running { .. }, InputView::Outcome(EventView::RunFinished(outcome))) => Some(
            report_of_run(outcome),
        ),
        _ => None,
    }
}

/// The report of the last run that ends while the backend takes `inputs`.
pub open spec fn last_report<C>(s: BackendView<C>, inputs: Seq<InputView<C>>) -> Option<
    RunReportView,
>
    decreases inputs.len(),
{
    if inputs.len() == 0 {
        None
    } else {
        match last_report(step_spec(s, inputs[0]).0, inputs.skip(1)) {
            Some(report) => Some(report),
            None => ended_run(s, inputs[0]),
        }
    }
}

/// The backend's state is always exactly one of the three: no repository
/// loaded, a repository loaded and idle, or a pipeline running.
pub proof fn lemma_state_is_one_of_three<C>(s: BackendView<C>)
    ensures
        s.state() is NotConfigured || s.state() is Available || s.state() is RunningPipeline,
        !(s.state() is NotConfigured && s.state() is Available),
        !(s.state() is NotConfigured && s.state() is RunningPipeline),
        !(s.state() is Available && s.state() is RunningPipeline),
{
}

/// One step changes the state only by a lawful move.
pub proof fn lemma_step_is_lawful<C>(s: BackendView<C>, input: InputView<C>)
    ensures
        lawful_move(s.state(), step_spec(s, input).0.state()),
{
}

/// Along any queue of inputs, each step changes the state only by a lawful
/// move: the state after the first `k + 1` inputs follows lawfully from the
/// state after the first `k`.
pub proof fn lemma_run_is_lawful<C>(s: BackendView<C>, inputs: Seq<InputView<C>>, k: int)
    requires
        0 <= k < inputs.len(),
    ensures
        lawful_move(
            run_spec(s, inputs.take(k)).0.state(),
            run_spec(s, inputs.take(k + 1)).0.state(),
        ),
    decreases k,
{
    let next = step_spec(s, inputs[0]).0;
    let rest = inputs.skip(1);
    let longer = inputs.take(k + 1);
    assert(longer[0] == inputs[0]);
    assert(longer.skip(1) =~= rest.take(k));
    assert(run_spec(s, longer).0 == run_spec(next, rest.take(k)).0);
    if k == 0 {
        assert(run_spec(s, inputs.take(0)).0 == s);
        assert(run_spec(next, rest.take(0)).0 == next);
        lemma_step_is_lawful(s, inputs[0]);
    } else {
        let shorter = inputs.take(k);
        assert(shorter[0] == inputs[0]);
        assert(shorter.skip(1) =~= rest.take(k - 1));
        assert(run_spec(s, shorter).0 == run_spec(next, rest.take(k - 1)).0);
        lemma_run_is_lawful(next, rest, k - 1);
    }
}

/// A request to run a pipeline while one runs fails with `NotReady` and
/// leaves the backend as it was; nobody is told of a completion.
pub proof fn lemma_run_rejected_while_running<C>(
    s: BackendView<C>,
    pipeline_name: Seq<char>,
    on_complete: C,
)
    requires
        s.state() is RunningPipeline,
    ensures
        process_spec(s, CiCdCmdView::RunPipeline { pipeline_name, on_complete }) == (
            s,
            StepView::<C>::reject(ErrorKind::NotReady, run_not_ready_message(s.state())),
        ),
{
}

/// A request to run a pipeline while no repository is loaded fails with
/// `NotReady` and leaves the backend as it was; nobody is told of a completion.
pub proof fn lemma_run_rejected_without_repository<C>(
    s: BackendView<C>,
    pipeline_name: Seq<char>,
    on_complete: C,
)
    requires
        s.state() is NotConfigured,
    ensures
        process_spec(s, CiCdCmdView::RunPipeline { pipeline_name, on_complete }) == (
            s,
            StepView::<C>::reject(ErrorKind::NotReady, run_not_ready_message(s.state())),
        ),
{
}

/// A request to clone while a pipeline runs fails with `NotReady` and leaves
/// the backend as it was.
pub proof fn lemma_clone_rejected_while_running<C>(s: BackendView<C>, url: Seq<char>)
    requires
        s.state() is RunningPipeline,
    ensures
        process_spec(s, CiCdCmdView::Clone(url)) == (
            s,
            StepView::<C>::reject(ErrorKind::NotReady, CLONE_NOT_READY@),
        ),
{
}

/// When the container of a run has ended and its output was captured, the
/// backend is idle with the same repository, the log holds the output, and the
/// caller of the run is told once, of a success.
pub proof fn lemma_successful_run<C>(s: BackendView<C>, output: Seq<u8>)
    requires
        s.activity is Running,
    ensures
        ({
            let (after, step) = resume_spec(s, EventView::RunFinished(Ok(output)));
            &&& after.state() == s.state().finished()
            &&& after.state() == (BackendStateView::Available { repo: s.activity->Running_repo })
            &&& after.activity is Idle
            &&& after.logs == lossy_text(output)
            &&& step.result is Ok
            &&& step.completed == Some((s.activity->Running_on_complete, RUN_SUCCEEDED@))
            &&& step.completed != Some((s.activity->Running_on_complete, RUN_FAILED@))
            &&& step.request is None
        }),
{
    lemma_messages_differ(EngineFailureView::Failed(Seq::empty()));
}

/// When the container of a run could not be run, the backend is idle with the
/// same repository, the log holds a diagnostic that ends with the engine's
/// words, and the caller of the run is told once, of a failure.
pub proof fn lemma_failed_run<C>(s: BackendView<C>, failure: EngineFailureView)
    requires
        s.activity is Running,
    ensures
        ({
            let (after, step) = resume_spec(s, EventView::RunFinished(Err(failure)));
            &&& after.state() == s.state().finished()
            &&& after.state() == (BackendStateView::Available { repo: s.activity->Running_repo })
            &&& after.activity is Idle
            &&& after.logs == LAUNCH_DIAGNOSTIC@ + failure.text()
            &&& after.logs.len() > 0
            &&& step.result is Err
            &&& step.result->Err_0.kind == failure.kind(ErrorKind::ContainerRunFailed)
            &&& step.completed == Some((s.activity->Running_on_complete, RUN_FAILED@))
            &&& step.completed != Some((s.activity->Running_on_complete, RUN_SUCCEEDED@))
            &&& step.request is None
        }),
{
    lemma_messages_differ(failure);
}

/// When the image of a run could not be built, no container is run: the
/// backend is idle with the same repository and the caller of the run is told
/// once, of a failure.
pub proof fn lemma_failed_build<C>(s: BackendView<C>, failure: EngineFailureView)
    requires
        s.activity is Building,
    ensures
        ({
            let (after, step) = resume_spec(s, EventView::ImageBuilt(Err(failure)));
            &&& after.state() == s.state().finished()
            &&& after.state() == (BackendStateView::Available { repo: s.activity->Building_repo })
            &&& after.activity is Idle
            &&& step.result is Err
            &&& step.result->Err_0.kind == failure.kind(ErrorKind::ContainerBuildFailed)
            &&& step.completed == Some((s.activity->Building_on_complete, RUN_FAILED@))
            &&& step.request is None
        }),
{
}

/// A step tells the caller of a run exactly when it ends the run: when it
/// takes the state from running a pipeline back to idle. As the state leaves
/// `RunningPipeline` once for each time it has entered it, the caller of each
/// run that was started is told once, and nobody else is told anything.
pub proof fn lemma_told_exactly_at_the_end<C>(s: BackendView<C>, input: InputView<C>)
    ensures
        ({
            let (after, step) = step_spec(s, input);
            &&& step.completed is Some <==> s.state() is RunningPipeline && after.state() is Available
            &&& step.completed is Some <==> ended_run(s, input) is Some
            &&& step.completed matches Some(told) ==> {
                &&& ended_run(s, input) matches Some(report)
                &&& told.1 == report.message
                &&& s.activity matches ActivityView::Building { on_complete, .. } ==> told.0
                    == on_complete
                &&& s.activity matches ActivityView::Running { on_complete, .. } ==> told.0
                    == on_complete
            }
        }),
{
}

/// A whole run that succeeds, from the command to the end of the container:
/// the state is `RunningPipeline` with the repository and the name as soon
/// as the pipeline's definition was found, and `Available` with the same
/// repository at the end; the caller is told once, at the last step, of a
/// success; and the log holds what the container wrote.
pub proof fn lemma_run_completes_once<C>(
    s: BackendView<C>,
    repo: RepoView,
    pipeline_name: Seq<char>,
    on_complete: C,
    pipelines: Map<Seq<char>, PipelineView>,
    output: Seq<u8>,
)
    requires
        s.activity == (ActivityView::<C>::Idle { loaded: Some(repo) }),
        pipelines.contains_key(pipeline_name),
    ensures
        ({
            let asked = process_spec(s, CiCdCmdView::RunPipeline { pipeline_name, on_complete });
            let found = resume_spec(asked.0, EventView::ConfigRead(ConfigFileView::Parsed(pipelines)));
            let built = resume_spec(found.0, EventView::ImageBuilt(Ok(())));
            let ended = resume_spec(built.0, EventView::RunFinished(Ok(output)));
            &&& asked.1.completed is None && found.1.completed is None && built.1.completed is None
            &&& asked.1.result is Ok && found.1.result is Ok && built.1.result is Ok
                && ended.1.result is Ok
            &&& found.0.state() == (BackendStateView::RunningPipeline {
                repo,
                pipeline: pipeline_name,
            })
            &&& built.0.state() == found.0.state()
            &&& ended.0.state() == (BackendStateView::Available { repo })
            &&& ended.1.completed == Some((on_complete, RUN_SUCCEEDED@))
            &&& ended.0.logs == lossy_text(output)
        }),
{
}

/// The message of a success and the message of a failure differ, and the
/// diagnostic of a launch that failed is never empty.
pub proof fn lemma_messages_differ(failure: EngineFailureView)
    ensures
        RUN_SUCCEEDED@ != RUN_FAILED@,
        (LAUNCH_DIAGNOSTIC@ + failure.text()).len() > 0,
{
    reveal_strlit("pipline run completed sucessfully. use `/logs` to view logs.");
    reveal_strlit("pipline failed! use `/logs to view logs.");
    reveal_strlit("failed to launch runner (Docker/Podman). failed with error, ");
    assert(RUN_SUCCEEDED@.len() != RUN_FAILED@.len());
}

/// The start of a run, from the command to the launch of the container: at
/// rest with a repository loaded, a command for a pipeline that the file
/// defines asks for the file, then for the image, then for the container.
/// The state is `RunningPipeline` with the same repository and the name asked
/// for as soon as the definition was found; nobody is told anything yet and
/// the log stays as it was.
pub proof fn lemma_run_starts<C>(
    s: BackendView<C>,
    repo: RepoView,
    pipeline_name: Seq<char>,
    on_complete: C,
    pipelines: Map<Seq<char>, PipelineView>,
)
    requires
        s.activity == (ActivityView::<C>::Idle { loaded: Some(repo) }),
        pipelines.contains_key(pipeline_name),
    ensures
        ({
            let asked = process_spec(s, CiCdCmdView::RunPipeline { pipeline_name, on_complete });
            let found = resume_spec(asked.0, EventView::ConfigRead(ConfigFileView::Parsed(pipelines)));
            let built = resume_spec(found.0, EventView::ImageBuilt(Ok(())));
            let running = BackendStateView::RunningPipeline { repo, pipeline: pipeline_name };
            &&& s.state() == (BackendStateView::Available { repo })
            &&& asked.1 == StepView::<C>::proceed(
                Some(RequestView::ReadConfig { path: config_path() }),
            )
            &&& found.1 == StepView::<C>::proceed(
                Some(RequestView::BuildImage(build_command_for(pipelines[pipeline_name]))),
            )
            &&& built.1 == StepView::<C>::proceed(
                Some(RequestView::RunContainer(run_command_for(pipeline_name))),
            )
            &&& asked.0.state() == s.state()
            &&& s.state().started(pipeline_name) == Some(running)
            &&& found.0.state() == running && built.0.state() == running
            &&& asked.0.logs == s.logs && found.0.logs == s.logs && built.0.logs == s.logs
        }),
{
}

/// A whole run whose container cannot be run, from the command to the end:
/// the state is `Available` with the same repository at the end, the caller
/// is told once, at the last step, of a failure, and the log holds the
/// diagnostic with the engine's words in place of what it held.
pub proof fn lemma_run_fails_once<C>(
    s: BackendView<C>,
    repo: RepoView,
    pipeline_name: Seq<char>,
    on_complete: C,
    pipelines: Map<Seq<char>, PipelineView>,
    failure: EngineFailureView,
)
    requires
        s.activity == (ActivityView::<C>::Idle { loaded: Some(repo) }),
        pipelines.contains_key(pipeline_name),
    ensures
        ({
            let asked = process_spec(s, CiCdCmdView::RunPipeline { pipeline_name, on_complete });
            let found = resume_spec(asked.0, EventView::ConfigRead(ConfigFileView::Parsed(pipelines)));
            let built = resume_spec(found.0, EventView::ImageBuilt(Ok(())));
            let ended = resume_spec(built.0, EventView::RunFinished(Err(failure)));
            &&& asked.1.completed is None && found.1.completed is None && built.1.completed is None
            &&& ended.1.completed == Some((on_complete, RUN_FAILED@))
            &&& ended.1.completed != Some((on_complete, RUN_SUCCEEDED@))
            &&& ended.1.result is Err
            &&& ended.1.result->Err_0.kind == failure.kind(ErrorKind::ContainerRunFailed)
            &&& ended.0.state() == (BackendStateView::Available { repo })
            &&& ended.0.activity is Idle
            &&& ended.0.logs == LAUNCH_DIAGNOSTIC@ + failure.text()
            &&& ended.0.logs.len() > 0
        }),
{
    lemma_messages_differ(failure);
}

/// At rest with a repository loaded, asking for a pipeline that the
/// configuration file does not define comes to nothing: the file is read, the
/// command fails with `PipelineNotFound`, one message that names the pipeline
/// goes to the outbound channel, no build and no run is asked for, nobody is
/// told of a completion, and the backend is as it was: the state was never
/// `RunningPipeline`.
pub proof fn lemma_unknown_pipeline_from_rest<C>(
    s: BackendView<C>,
    repo: RepoView,
    pipeline_name: Seq<char>,
    on_complete: C,
    pipelines: Map<Seq<char>, PipelineView>,
)
    requires
        s.activity == (ActivityView::<C>::Idle { loaded: Some(repo) }),
        !pipelines.contains_key(pipeline_name),
    ensures
        ({
            let asked = process_spec(s, CiCdCmdView::RunPipeline { pipeline_name, on_complete });
            let found = resume_spec(asked.0, EventView::ConfigRead(ConfigFileView::Parsed(pipelines)));
            &&& asked.1 == StepView::<C>::proceed(
                Some(RequestView::ReadConfig { path: config_path() }),
            )
            &&& asked.0.state() == s.state() && !(asked.0.state() is RunningPipeline)
            &&& found.0 == s
            &&& !(found.0.state() is RunningPipeline)
            &&& found.1 == StepView::<C>::reject(
                ErrorKind::PipelineNotFound,
                UNKNOWN_PIPELINE@ + pipeline_name,
            )
            &&& found.1.output == Some(UNKNOWN_PIPELINE@ + pipeline_name)
            &&& found.1.completed is None && found.1.request is None
        }),
{
}

/// Asking for a pipeline that the configuration file does not define never
/// takes the state to `RunningPipeline`: the state stays as it was, the
/// command fails with `PipelineNotFound`, no outside work is asked for and
/// nobody is told of a completion.
pub proof fn lemma_unknown_pipeline_never_runs<C>(
    s: BackendView<C>,
    pipelines: Map<Seq<char>, PipelineView>,
)
    requires
        s.activity is ReadingConfig,
        !pipelines.contains_key(s.activity->ReadingConfig_pipeline_name),
    ensures
        ({
            let (after, step) = resume_spec(s, EventView::ConfigRead(ConfigFileView::Parsed(pipelines)));
            &&& after.state() == s.state()
            &&& !(after.state() is RunningPipeline)
            &&& after.activity is Idle
            &&& step == StepView::<C>::reject(
                ErrorKind::PipelineNotFound,
                UNKNOWN_PIPELINE@ + s.activity->ReadingConfig_pipeline_name,
            )
        }),
{
}

/// A configuration file that is missing or is no table of pipelines fails the
/// command, each with an error kind of its own, and never takes the state to
/// `RunningPipeline`.
pub proof fn lemma_unreadable_config_never_runs<C>(s: BackendView<C>, file: ConfigFileView)
    requires
        s.activity is ReadingConfig,
        !(file is Parsed),
    ensures
        ({
            let (after, step) = resume_spec(s, EventView::ConfigRead(file));
            &&& after.state() == s.state()
            &&& !(after.state() is RunningPipeline)
            &&& step.result is Err
            &&& file is Missing ==> step.result->Err_0.kind == ErrorKind::ConfigMissing
            &&& file is Invalid ==> step.result->Err_0.kind == ErrorKind::ConfigInvalid
            &&& step.completed is None
            &&& step.request is None
        }),
{
}

/// A command that is rejected or fails leaves the state and the log as they
/// were, unless it is the run itself that has failed: then the state is idle
/// again, as after every run.
pub proof fn lemma_failure_keeps_state<C>(s: BackendView<C>, input: InputView<C>)
    requires
        step_spec(s, input).1.result is Err,
        ended_run(s, input) is None,
    ensures
        step_spec(s, input).0.state() == s.state(),
        step_spec(s, input).0.logs == s.logs,
        step_spec(s, input).1.completed is None,
        step_spec(s, input).1.request is None,
{
}

/// A clone that succeeds, from the command to its end: the old checkout's
/// removal is asked for first and the clone into the working directory only
/// after it; the state stays as it was until the clone has succeeded, and is
/// then `Available` with the repository behind the URL.
pub proof fn lemma_clone_replaces_checkout<C>(s: BackendView<C>, url: Seq<char>)
    requires
        s.activity is Idle,
        repo_of(url) is Some,
    ensures
        ({
            let next = repo_of(url)->0;
            let asked = process_spec(s, CiCdCmdView::Clone(url));
            let removed = resume_spec(asked.0, EventView::WorkdirRemoved(Ok(())));
            let cloned = resume_spec(removed.0, EventView::RepoCloned(Ok(())));
            &&& asked.1 == StepView::<C>::proceed(
                Some(RequestView::RemoveWorkdir { path: CACHE_DIR@ }),
            )
            &&& removed.1 == StepView::<C>::proceed(
                Some(RequestView::CloneRepo { url: next.url, into: CACHE_DIR@ }),
            )
            &&& cloned.1 == StepView::<C>::proceed(None)
            &&& asked.0.state() == s.state() && removed.0.state() == s.state()
            &&& cloned.0.state() == (BackendStateView::Available { repo: next })
            &&& cloned.0.activity is Idle
            &&& cloned.0.logs == s.logs
        }),
{
}

/// Two clones in succession: each asks for the removal of the working
/// directory before it asks for its own clone into it, so the second clone
/// starts only when the first checkout has been removed; at the end the
/// second repository is the one that is loaded.
pub proof fn lemma_second_clone_replaces_first<C>(
    s: BackendView<C>,
    first: Seq<char>,
    second: Seq<char>,
)
    requires
        s.activity is Idle,
        repo_of(first) is Some,
        repo_of(second) is Some,
    ensures
        ({
            let removal = StepView::<C>::proceed(
                Some(RequestView::RemoveWorkdir { path: CACHE_DIR@ }),
            );
            let a1 = process_spec(s, CiCdCmdView::Clone(first));
            let a2 = resume_spec(a1.0, EventView::WorkdirRemoved(Ok(())));
            let a3 = resume_spec(a2.0, EventView::RepoCloned(Ok(())));
            let b1 = process_spec(a3.0, CiCdCmdView::Clone(second));
            let b2 = resume_spec(b1.0, EventView::WorkdirRemoved(Ok(())));
            let b3 = resume_spec(b2.0, EventView::RepoCloned(Ok(())));
            &&& a1.1 == removal && b1.1 == removal
            &&& a2.1 == StepView::<C>::proceed(
                Some(RequestView::CloneRepo { url: repo_of(first)->0.url, into: CACHE_DIR@ }),
            )
            &&& b2.1 == StepView::<C>::proceed(
                Some(RequestView::CloneRepo { url: repo_of(second)->0.url, into: CACHE_DIR@ }),
            )
            &&& a3.1.result is Ok && b3.1.result is Ok
            &&& a3.0.state() == (BackendStateView::Available { repo: repo_of(first)->0 })
            &&& b1.0.state() == a3.0.state() && b2.0.state() == a3.0.state()
            &&& b3.0.state() == (BackendStateView::Available { repo: repo_of(second)->0 })
        }),
{
}

/// A clone that fails, at the removal of the old checkout or at the clone
/// itself, leaves the state as it was and fails with `RepositoryOpFailed`.
pub proof fn lemma_failed_clone_keeps_state<C>(
    s: BackendView<C>,
    url: Seq<char>,
    reason: Seq<char>,
)
    requires
        s.activity is Idle,
        repo_of(url) is Some,
    ensures
        ({
            let asked = process_spec(s, CiCdCmdView::Clone(url));
            let stuck = resume_spec(asked.0, EventView::WorkdirRemoved(Err(reason)));
            let removed = resume_spec(asked.0, EventView::WorkdirRemoved(Ok(())));
            let failed = resume_spec(removed.0, EventView::RepoCloned(Err(reason)));
            &&& stuck.0 == s && failed.0 == s
            &&& stuck.1.result is Err && stuck.1.result->Err_0.kind == ErrorKind::RepositoryOpFailed
            &&& failed.1.result is Err && failed.1.result->Err_0.kind
                == ErrorKind::RepositoryOpFailed
            &&& stuck.1.request is None && failed.1.request is None
        }),
{
}

/// `GetLogs` is always served: it sends the log as it is and changes nothing.
pub proof fn lemma_get_logs<C>(s: BackendView<C>)
    ensures
        process_spec(s, CiCdCmdView::<C>::GetLogs) == (
            s,
            StepView::<C> { result: Ok(()), output: Some(s.logs), completed: None, request: None },
        ),
{
}

/// A step that ends a run overwrites the log with the report of that run,
/// whatever the log held; any other step leaves the log alone.
pub proof fn lemma_log_after_step<C>(s: BackendView<C>, input: InputView<C>)
    ensures
        step_spec(s, input).0.logs == match ended_run(s, input) {
            Some(report) => report.log,
            None => s.logs,
        },
{
}

/// After any queue of inputs the log is that of the last run that ended
/// while they were taken: its captured output, or the diagnostic of its
/// failure. Where no run ended, the log is what it was.
pub proof fn lemma_log_is_of_last_run<C>(s: BackendView<C>, inputs: Seq<InputView<C>>)
    ensures
        run_spec(s, inputs).0.logs == match last_report(s, inputs) {
            Some(report) => report.log,
            None => s.logs,
        },
    decreases inputs.len(),
{
    if inputs.len() > 0 {
        lemma_log_after_step(s, inputs[0]);
        lemma_log_is_of_last_run(step_spec(s, inputs[0]).0, inputs.skip(1));
    }
}

/// `GetLogs` after any queue of inputs sends the log of the last run that
/// ended while they were taken, never that of a run before it.
pub proof fn lemma_get_logs_sends_last_run<C>(s: BackendView<C>, inputs: Seq<InputView<C>>)
    requires
        last_report(s, inputs) is Some,
    ensures
        process_spec(run_spec(s, inputs).0, CiCdCmdView::<C>::GetLogs).1.output == Some(
            last_report(s, inputs)->0.log,
        ),
{
    lemma_log_is_of_last_run(s, inputs);
}

/// 1 while a pipeline runs, else 0.
pub open spec fn running<C>(s: BackendView<C>) -> nat {
    if s.state() is RunningPipeline {
        1
    } else {
        0
    }
}

/// How many runs start while the backend takes `inputs`: how many steps take
/// the state into `RunningPipeline`.
pub open spec fn runs_started<C>(s: BackendView<C>, inputs: Seq<InputView<C>>) -> nat
    decreases inputs.len(),
{
    if inputs.len() == 0 {
        0
    } else {
        let next = step_spec(s, inputs[0]).0;
        let here: nat = if running(s) == 0 && running(next) == 1 {
            1
        } else {
            0
        };
        here + runs_started(next, inputs.skip(1))
    }
}

/// How many times the caller of a run is told of its end while the backend
/// takes `inputs`.
pub open spec fn callers_told<C>(s: BackendView<C>, inputs: Seq<InputView<C>>) -> nat
    decreases inputs.len(),
{
    if inputs.len() == 0 {
        0
    } else {
        let (next, step) = step_spec(s, inputs[0]);
        let here: nat = if step.completed is Some {
            1
        } else {
            0
        };
        here + callers_told(next, inputs.skip(1))
    }
}

/// Whatever the backend is given, the caller of each run is told of its end
/// once and only once: along any queue of inputs, as many callers are told as
/// runs have started, the run that is still going on at the end left out and
/// the one that was going on at the start counted in.
pub proof fn lemma_every_run_is_told_once<C>(s: BackendView<C>, inputs: Seq<InputView<C>>)
    ensures
        running(s) + runs_started(s, inputs) == callers_told(s, inputs) + running(
            run_spec(s, inputs).0,
        ),
    decreases inputs.len(),
{
    if inputs.len() > 0 {
        let next = step_spec(s, inputs[0]).0;
        lemma_told_exactly_at_the_end(s, inputs[0]);
        lemma_step_is_lawful(s, inputs[0]);
        lemma_every_run_is_told_once(next, inputs.skip(1));
    }
}

} // verus!
