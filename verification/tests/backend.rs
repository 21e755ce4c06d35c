use discord_ci_cd::backend::{
    Backend, CiCdCmd, Event, Request, Step, CLONE_NOT_READY, CONFIG_UNREADABLE, RUN_NOT_READY,
    UNEXPECTED_EVENT,
};
use discord_ci_cd::error::ErrorKind;
use discord_ci_cd::pipeline::{ConfigFile, Pipeline, Pipelines};
use discord_ci_cd::repo::Repo;
use discord_ci_cd::runner::{
    EngineFailure, LAUNCH_DIAGNOSTIC, BUILD_DIAGNOSTIC, RUN_FAILED, RUN_SUCCEEDED,
};
use discord_ci_cd::state::BackendState;

const URL: &str = "https://example.com/team/project.git";

fn repo() -> Repo {
    Repo { repo_name: "team/project".to_string(), url: URL.to_string() }
}

fn available() -> Backend<u32> {
    let mut backend: Backend<u32> = Backend::new();
    assert!(backend.process(CiCdCmd::Clone(URL.to_string())).result.is_ok());
    assert!(backend.resume(Event::WorkdirRemoved(Ok(()))).result.is_ok());
    assert!(backend.resume(Event::RepoCloned(Ok(()))).result.is_ok());
    assert_eq!(backend.current(), BackendState::Available { repo: repo() });
    backend
}

fn config() -> ConfigFile {
    let mut pipelines = Pipelines::new();
    pipelines.insert(
        "build".to_string(),
        Pipeline {
            container: "rust".to_string(),
            script: vec!["cargo build".to_string()],
            artifacts: None,
        },
    );
    ConfigFile::Parsed(pipelines)
}

fn running() -> Backend<u32> {
    let mut backend = available();
    let asked = backend.process(CiCdCmd::RunPipeline { pipeline_name: "build".to_string(), on_complete: 7 });
    assert!(asked.result.is_ok());
    assert!(backend.resume(Event::ConfigRead(config())).result.is_ok());
    assert!(backend.resume(Event::ImageBuilt(Ok(()))).result.is_ok());
    backend
}

fn running_state() -> BackendState {
    BackendState::RunningPipeline { repo: repo(), pipeline: "build".to_string() }
}

#[test]
fn new_backend_is_not_configured_with_empty_log() {
    let backend: Backend<u32> = Backend::new();
    assert_eq!(backend.current(), BackendState::NotConfigured);
    assert_eq!(backend.logs(), "");
    assert!(!backend.is_busy());
}

#[test]
fn run_pipeline_without_repository_is_not_ready() {
    let mut backend: Backend<u32> = Backend::new();
    let step = backend.process(CiCdCmd::RunPipeline { pipeline_name: "build".to_string(), on_complete: 1 });
    let error = step.result.unwrap_err();
    assert_eq!(error.kind, ErrorKind::NotReady);
    assert_eq!(error.message, RUN_NOT_READY);
    assert_eq!(error.to_string(), RUN_NOT_READY);
    assert_eq!(step.output, Some(RUN_NOT_READY.to_string()));
    assert_eq!(step.completed, None);
    assert_eq!(step.request, None);
    assert_eq!(backend.current(), BackendState::NotConfigured);
}

#[test]
fn run_pipeline_goes_through_running_and_back() {
    let mut backend = available();
    let asked = backend.process(CiCdCmd::RunPipeline { pipeline_name: "build".to_string(), on_complete: 7 });
    assert_eq!(asked.result, Ok(()));
    assert_eq!(asked.completed, None);
    assert_eq!(asked.request, Some(Request::ReadConfig { path: "/tmp/dcicd/.dcicd.toml".to_string() }));
    assert_eq!(backend.current(), BackendState::Available { repo: repo() });
    assert!(backend.is_busy());

    let found = backend.resume(Event::ConfigRead(config()));
    assert_eq!(found.result, Ok(()));
    assert_eq!(found.completed, None);
    assert!(matches!(found.request, Some(Request::BuildImage(_))));
    assert_eq!(backend.current(), running_state());

    let built = backend.resume(Event::ImageBuilt(Ok(())));
    assert_eq!(built.result, Ok(()));
    assert_eq!(built.completed, None);
    assert!(matches!(built.request, Some(Request::RunContainer(_))));
    assert_eq!(backend.current(), running_state());
    assert!(!backend.is_busy());

    let ended = backend.resume(Event::RunFinished(Ok(b"Compiling\nFinished\n".to_vec())));
    assert_eq!(
        ended,
        Step {
            result: Ok(()),
            output: None,
            completed: Some((7, RUN_SUCCEEDED.to_string())),
            request: None,
        }
    );
    assert_eq!(backend.current(), BackendState::Available { repo: repo() });
    assert_eq!(backend.logs(), "Compiling\nFinished\n");
}

#[test]
fn run_pipeline_while_running_is_not_ready() {
    let mut backend = running();
    let step = backend.process(CiCdCmd::RunPipeline { pipeline_name: "test".to_string(), on_complete: 8 });
    let error = step.result.unwrap_err();
    assert_eq!(error.kind, ErrorKind::NotReady);
    assert_eq!(
        error.message,
        "backend is not available to run jobs at the moment. pls wait for job to finish. currently running: build"
    );
    assert_eq!(step.output, Some(error.message.clone()));
    assert_eq!(step.completed, None);
    assert_eq!(step.request, None);
    assert_eq!(backend.current(), running_state());
    // the run in progress still ends as it would have
    let ended = backend.resume(Event::RunFinished(Ok(Vec::new())));
    assert_eq!(ended.completed, Some((7, RUN_SUCCEEDED.to_string())));
}

#[test]
fn clone_while_running_is_not_ready() {
    let mut backend = running();
    let step = backend.process(CiCdCmd::Clone("https://example.com/other/thing.git".to_string()));
    let error = step.result.unwrap_err();
    assert_eq!(error.kind, ErrorKind::NotReady);
    assert_eq!(error.message, CLONE_NOT_READY);
    assert_eq!(step.output, Some(CLONE_NOT_READY.to_string()));
    assert_eq!(step.request, None);
    assert_eq!(backend.current(), running_state());
}

#[test]
fn command_while_processor_is_busy_is_not_ready() {
    let mut backend = available();
    backend.process(CiCdCmd::RunPipeline { pipeline_name: "build".to_string(), on_complete: 7 });
    let second = backend.process(CiCdCmd::RunPipeline { pipeline_name: "build".to_string(), on_complete: 9 });
    assert_eq!(second.result.unwrap_err().kind, ErrorKind::NotReady);
    let clone = backend.process(CiCdCmd::Clone(URL.to_string()));
    assert_eq!(clone.result.unwrap_err().kind, ErrorKind::NotReady);
    // the first command goes on undisturbed
    let found = backend.resume(Event::ConfigRead(config()));
    assert!(found.result.is_ok());
    assert_eq!(backend.current(), running_state());
}

#[test]
fn failed_run_returns_to_available_with_diagnostic() {
    let mut backend = running();
    let ended = backend.resume(Event::RunFinished(Err(EngineFailure::Failed(
        "command 'docker run' failed: exit status: 125".to_string(),
    ))));
    let error = ended.result.clone().unwrap_err();
    assert_eq!(error.kind, ErrorKind::ContainerRunFailed);
    assert_eq!(
        error.message,
        "failed to launch runner. failed with error, command 'docker run' failed: exit status: 125"
    );
    assert_eq!(ended.completed, Some((7, RUN_FAILED.to_string())));
    assert_eq!(ended.output, None);
    assert_eq!(ended.request, None);
    assert_eq!(backend.current(), BackendState::Available { repo: repo() });
    assert_eq!(
        backend.logs(),
        format!("{}command 'docker run' failed: exit status: 125", LAUNCH_DIAGNOSTIC)
    );
    assert_eq!(
        backend.logs(),
        "failed to launch runner (Docker/Podman). failed with error, command 'docker run' failed: exit status: 125"
    );
}

#[test]
fn unavailable_engine_at_run_is_reported_as_such() {
    let mut backend = running();
    let ended = backend.resume(Event::RunFinished(Err(EngineFailure::Unavailable("No such file".to_string()))));
    assert_eq!(ended.result.unwrap_err().kind, ErrorKind::EngineUnavailable);
    assert_eq!(ended.completed, Some((7, RUN_FAILED.to_string())));
    assert_eq!(backend.current(), BackendState::Available { repo: repo() });
}

#[test]
fn failed_build_returns_to_available_and_runs_nothing() {
    let mut backend = available();
    backend.process(CiCdCmd::RunPipeline { pipeline_name: "build".to_string(), on_complete: 7 });
    backend.resume(Event::ConfigRead(config()));
    assert_eq!(backend.current(), running_state());
    let built = backend.resume(Event::ImageBuilt(Err(EngineFailure::Failed("exit status: 1".to_string()))));
    let error = built.result.clone().unwrap_err();
    assert_eq!(error.kind, ErrorKind::ContainerBuildFailed);
    assert_eq!(error.message, "exit status: 1");
    assert_eq!(built.completed, Some((7, RUN_FAILED.to_string())));
    assert_eq!(built.request, None);
    assert_eq!(backend.current(), BackendState::Available { repo: repo() });
    assert_eq!(backend.logs(), format!("{}exit status: 1", BUILD_DIAGNOSTIC));
}

#[test]
fn unavailable_engine_at_build_is_reported_as_such() {
    let mut backend = available();
    backend.process(CiCdCmd::RunPipeline { pipeline_name: "build".to_string(), on_complete: 7 });
    backend.resume(Event::ConfigRead(config()));
    let built = backend.resume(Event::ImageBuilt(Err(EngineFailure::Unavailable("not found".to_string()))));
    assert_eq!(built.result.unwrap_err().kind, ErrorKind::EngineUnavailable);
}

#[test]
fn unknown_pipeline_never_runs() {
    let mut backend = available();
    backend.process(CiCdCmd::RunPipeline { pipeline_name: "deploy".to_string(), on_complete: 7 });
    let step = backend.resume(Event::ConfigRead(config()));
    let error = step.result.unwrap_err();
    assert_eq!(error.kind, ErrorKind::PipelineNotFound);
    assert_eq!(error.message, "unknown pipeline: deploy");
    assert_eq!(step.output, Some("unknown pipeline: deploy".to_string()));
    assert_eq!(step.completed, None);
    assert_eq!(step.request, None);
    assert_eq!(backend.current(), BackendState::Available { repo: repo() });
    assert!(!backend.is_busy());
}

#[test]
fn missing_config_fails_the_command() {
    let mut backend = available();
    backend.process(CiCdCmd::RunPipeline { pipeline_name: "build".to_string(), on_complete: 7 });
    let step = backend.resume(Event::ConfigRead(ConfigFile::Missing));
    let error = step.result.unwrap_err();
    assert_eq!(error.kind, ErrorKind::ConfigMissing);
    assert_eq!(error.message, CONFIG_UNREADABLE);
    assert_eq!(step.output, Some("failed to read .dcicd.toml".to_string()));
    assert_eq!(step.completed, None);
    assert_eq!(backend.current(), BackendState::Available { repo: repo() });
}

#[test]
fn invalid_config_fails_the_command() {
    let mut backend = available();
    backend.process(CiCdCmd::RunPipeline { pipeline_name: "build".to_string(), on_complete: 7 });
    let step = backend.resume(Event::ConfigRead(ConfigFile::Invalid("expected `=`".to_string())));
    let error = step.result.unwrap_err();
    assert_eq!(error.kind, ErrorKind::ConfigInvalid);
    assert_eq!(error.message, "failed to read .dcicd.toml, expected `=`");
    assert_eq!(step.output, Some("failed to read .dcicd.toml".to_string()));
    assert_eq!(step.completed, None);
    assert_eq!(step.request, None);
    assert_eq!(backend.current(), BackendState::Available { repo: repo() });
}

#[test]
fn get_logs_sends_the_last_run_only() {
    let mut backend = running();
    backend.resume(Event::RunFinished(Ok(b"first run".to_vec())));
    let step = backend.process(CiCdCmd::GetLogs);
    assert_eq!(step, Step { result: Ok(()), output: Some("first run".to_string()), completed: None, request: None });

    backend.process(CiCdCmd::RunPipeline { pipeline_name: "build".to_string(), on_complete: 8 });
    backend.resume(Event::ConfigRead(config()));
    backend.resume(Event::ImageBuilt(Ok(())));
    // while the second run is going on the log is still that of the first
    assert_eq!(backend.process(CiCdCmd::GetLogs).output, Some("first run".to_string()));
    let ended = backend.resume(Event::RunFinished(Ok(b"second".to_vec())));
    assert_eq!(ended.completed, Some((8, RUN_SUCCEEDED.to_string())));
    assert_eq!(backend.process(CiCdCmd::GetLogs).output, Some("second".to_string()));
    assert_eq!(backend.current(), BackendState::Available { repo: repo() });
}

#[test]
fn get_logs_is_served_while_the_processor_is_busy() {
    let mut backend = available();
    backend.process(CiCdCmd::RunPipeline { pipeline_name: "build".to_string(), on_complete: 7 });
    let step = backend.process(CiCdCmd::GetLogs);
    assert_eq!(step.result, Ok(()));
    assert_eq!(step.output, Some(String::new()));
    assert!(backend.is_busy());
}

#[test]
fn captured_output_that_is_not_utf8_is_decoded_with_replacements() {
    let mut backend = running();
    backend.resume(Event::RunFinished(Ok(vec![b'o', b'k', 0xff, b'!'])));
    assert_eq!(backend.logs(), "ok\u{fffd}!");
}

#[test]
fn clone_removes_the_old_checkout_first() {
    let mut backend: Backend<u32> = Backend::new();
    let asked = backend.process(CiCdCmd::Clone(URL.to_string()));
    assert_eq!(
        asked,
        Step {
            result: Ok(()),
            output: None,
            completed: None,
            request: Some(Request::RemoveWorkdir { path: "/tmp/dcicd/".to_string() }),
        }
    );
    assert_eq!(backend.current(), BackendState::NotConfigured);
    let removed = backend.resume(Event::WorkdirRemoved(Ok(())));
    assert_eq!(
        removed.request,
        Some(Request::CloneRepo { url: URL.to_string(), into: "/tmp/dcicd/".to_string() })
    );
    assert_eq!(backend.current(), BackendState::NotConfigured);
    let cloned = backend.resume(Event::RepoCloned(Ok(())));
    assert_eq!(cloned, Step { result: Ok(()), output: None, completed: None, request: None });
    assert_eq!(backend.current(), BackendState::Available { repo: repo() });
}

#[test]
fn clone_twice_replaces_the_checkout() {
    let mut backend = available();
    let second = "https://example.com/team/other.git";
    let asked = backend.process(CiCdCmd::Clone(second.to_string()));
    assert_eq!(asked.request, Some(Request::RemoveWorkdir { path: "/tmp/dcicd/".to_string() }));
    // until the second clone has succeeded the first repository stays loaded
    assert_eq!(backend.current(), BackendState::Available { repo: repo() });
    let removed = backend.resume(Event::WorkdirRemoved(Ok(())));
    assert_eq!(
        removed.request,
        Some(Request::CloneRepo { url: second.to_string(), into: "/tmp/dcicd/".to_string() })
    );
    backend.resume(Event::RepoCloned(Ok(())));
    assert_eq!(
        backend.current(),
        BackendState::Available {
            repo: Repo { repo_name: "team/other".to_string(), url: second.to_string() }
        }
    );
}

#[test]
fn failed_clone_leaves_the_state_unchanged() {
    let mut backend = available();
    backend.process(CiCdCmd::Clone("https://example.com/team/other.git".to_string()));
    backend.resume(Event::WorkdirRemoved(Ok(())));
    let step = backend.resume(Event::RepoCloned(Err("remote hung up".to_string())));
    let error = step.result.unwrap_err();
    assert_eq!(error.kind, ErrorKind::RepositoryOpFailed);
    assert_eq!(error.message, "failed to clone repo: remote hung up");
    assert_eq!(step.output, Some("failed to clone repo: remote hung up".to_string()));
    assert_eq!(backend.current(), BackendState::Available { repo: repo() });
    assert!(!backend.is_busy());
}

#[test]
fn failed_removal_fails_the_clone() {
    let mut backend: Backend<u32> = Backend::new();
    backend.process(CiCdCmd::Clone(URL.to_string()));
    let step = backend.resume(Event::WorkdirRemoved(Err("permission denied".to_string())));
    let error = step.result.unwrap_err();
    assert_eq!(error.kind, ErrorKind::RepositoryOpFailed);
    assert_eq!(error.message, "failed to remove the old checkout: permission denied");
    assert_eq!(step.request, None);
    assert_eq!(backend.current(), BackendState::NotConfigured);
}

#[test]
fn clone_of_what_is_no_url_is_refused() {
    let mut backend: Backend<u32> = Backend::new();
    let step = backend.process(CiCdCmd::Clone("not a url".to_string()));
    let error = step.result.unwrap_err();
    assert_eq!(error.kind, ErrorKind::RepositoryOpFailed);
    assert_eq!(error.message, "failed to clone repo: not a valid URL");
    assert_eq!(step.request, None);
    assert_eq!(backend.current(), BackendState::NotConfigured);
}

#[test]
fn clone_keeps_the_url_as_the_parser_writes_it() {
    let mut backend: Backend<u32> = Backend::new();
    backend.process(CiCdCmd::Clone("HTTPS://Example.COM/team/project.git".to_string()));
    let removed = backend.resume(Event::WorkdirRemoved(Ok(())));
    assert_eq!(
        removed.request,
        Some(Request::CloneRepo { url: URL.to_string(), into: "/tmp/dcicd/".to_string() })
    );
}

#[test]
fn outcome_that_nothing_waits_for_changes_nothing() {
    let mut backend = available();
    let step = backend.resume(Event::RunFinished(Ok(b"stray".to_vec())));
    let error = step.result.unwrap_err();
    assert_eq!(error.kind, ErrorKind::NotReady);
    assert_eq!(error.message, UNEXPECTED_EVENT);
    assert_eq!(step.output, None);
    assert_eq!(step.completed, None);
    assert_eq!(backend.current(), BackendState::Available { repo: repo() });
    assert_eq!(backend.logs(), "");

    let mut backend = running();
    let step = backend.resume(Event::ImageBuilt(Ok(())));
    assert_eq!(step.result.unwrap_err().kind, ErrorKind::NotReady);
    assert_eq!(backend.current(), running_state());
}
