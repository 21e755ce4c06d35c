use discord_ci_cd::repo::Repo;
use discord_ci_cd::state::BackendState;

fn repo() -> Repo {
    Repo { repo_name: "a/b".to_string(), url: "https://example.com/a/b.git".to_string() }
}

#[test]
fn default_state_is_not_configured() {
    assert_eq!(BackendState::default(), BackendState::NotConfigured);
}

#[test]
fn a_run_starts_only_from_available() {
    let available = BackendState::Available { repo: repo() };
    assert_eq!(
        available.started("build"),
        Some(BackendState::RunningPipeline { repo: repo(), pipeline: "build".to_string() })
    );
    assert_eq!(BackendState::NotConfigured.started("build"), None);
    let running = BackendState::RunningPipeline { repo: repo(), pipeline: "build".to_string() };
    assert_eq!(running.started("test"), None);
}

#[test]
fn a_run_ends_in_available_with_the_same_repo() {
    let running = BackendState::RunningPipeline { repo: repo(), pipeline: "build".to_string() };
    assert_eq!(running.finished(), BackendState::Available { repo: repo() });
    assert_eq!(BackendState::NotConfigured.finished(), BackendState::NotConfigured);
    let available = BackendState::Available { repo: repo() };
    assert_eq!(available.finished(), available);
}

#[test]
fn clone_is_accepted_unless_running() {
    assert!(BackendState::NotConfigured.accepts_clone());
    assert!(BackendState::Available { repo: repo() }.accepts_clone());
    assert!(!BackendState::RunningPipeline { repo: repo(), pipeline: "x".to_string() }.accepts_clone());
}

#[test]
fn state_clone_is_equal() {
    let running = BackendState::RunningPipeline { repo: repo(), pipeline: "build".to_string() };
    assert_eq!(running.clone(), running);
}
