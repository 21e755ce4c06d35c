use discord_ci_cd::ci_cd::{
    run_backend, Backend, BackendState, CiCdCmd, ConfigFile, ErrorKind, Event, Input, Pipeline,
    Pipelines, Repo, Request,
};
use discord_ci_cd::runner::RUN_SUCCEEDED;

fn config() -> ConfigFile {
    let mut pipelines = Pipelines::new();
    pipelines.insert(
        "build".to_string(),
        Pipeline { container: "rust".to_string(), script: vec!["cargo build".to_string()], artifacts: None },
    );
    ConfigFile::Parsed(pipelines)
}

#[test]
fn queue_is_drained_in_order() {
    let mut backend: Backend<&str> = Backend::new();
    let steps = run_backend(
        &mut backend,
        vec![
            Input::Command(CiCdCmd::RunPipeline { pipeline_name: "build".to_string(), on_complete: "early" }),
            Input::Command(CiCdCmd::Clone("https://example.com/a/b.git".to_string())),
            Input::Outcome(Event::WorkdirRemoved(Ok(()))),
            Input::Outcome(Event::RepoCloned(Ok(()))),
            Input::Command(CiCdCmd::RunPipeline { pipeline_name: "build".to_string(), on_complete: "first" }),
            Input::Outcome(Event::ConfigRead(config())),
            Input::Outcome(Event::ImageBuilt(Ok(()))),
            Input::Command(CiCdCmd::GetLogs),
            Input::Outcome(Event::RunFinished(Ok(b"done".to_vec()))),
            Input::Command(CiCdCmd::GetLogs),
        ],
    );
    assert_eq!(steps.len(), 10);
    assert_eq!(steps[0].result.clone().unwrap_err().kind, ErrorKind::NotReady);
    assert_eq!(steps[1].request, Some(Request::RemoveWorkdir { path: "/tmp/dcicd/".to_string() }));
    assert!(matches!(steps[2].request, Some(Request::CloneRepo { .. })));
    assert_eq!(steps[3].request, None);
    assert!(matches!(steps[4].request, Some(Request::ReadConfig { .. })));
    assert!(matches!(steps[5].request, Some(Request::BuildImage(_))));
    assert!(matches!(steps[6].request, Some(Request::RunContainer(_))));
    assert_eq!(steps[7].output, Some(String::new()));
    assert_eq!(steps[8].completed, Some(("first", RUN_SUCCEEDED.to_string())));
    assert_eq!(steps[9].output, Some("done".to_string()));
    let told: Vec<_> = steps.iter().filter(|step| step.completed.is_some()).collect();
    assert_eq!(told.len(), 1);
    assert_eq!(
        backend.current(),
        BackendState::Available {
            repo: Repo { repo_name: "a/b".to_string(), url: "https://example.com/a/b.git".to_string() }
        }
    );
}

#[test]
fn empty_queue_changes_nothing() {
    let mut backend: Backend<u8> = Backend::new();
    let steps = run_backend(&mut backend, Vec::new());
    assert!(steps.is_empty());
    assert_eq!(backend.current(), BackendState::NotConfigured);
}

#[test]
fn single_step_takes_commands_and_outcomes() {
    let mut backend: Backend<u8> = Backend::new();
    let step = backend.step(Input::Command(CiCdCmd::GetLogs));
    assert_eq!(step.output, Some(String::new()));
    let step = backend.step(Input::Outcome(Event::RepoCloned(Ok(()))));
    assert_eq!(step.result.unwrap_err().kind, ErrorKind::NotReady);
}
