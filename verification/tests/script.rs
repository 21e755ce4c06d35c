use discord_ci_cd::pipeline::{ConfigFile, Pipeline, Pipelines};
use discord_ci_cd::script::{
    config_location, exit_notice, next_step, requested_pipeline, script_of, Exit, ScriptErrorKind,
    ScriptStep,
};

fn script() -> Vec<String> {
    vec!["cargo build".to_string(), "cargo test".to_string()]
}

fn config() -> ConfigFile {
    let mut pipelines = Pipelines::new();
    pipelines.insert(
        "build".to_string(),
        Pipeline { container: "rust".to_string(), script: script(), artifacts: None },
    );
    ConfigFile::Parsed(pipelines)
}

#[test]
fn runner_reads_the_mounted_checkout() {
    assert_eq!(config_location(), "/home/dcicd-runner/repo/.dcicd.toml");
}

#[test]
fn pipeline_is_the_first_argument() {
    let args = vec!["dcicd-runner".to_string(), "build".to_string(), "extra".to_string()];
    assert_eq!(requested_pipeline(&args), Ok("build".to_string()));
}

#[test]
fn missing_argument_is_an_error() {
    for args in [vec![], vec!["dcicd-runner".to_string()]] {
        let error = requested_pipeline(&args).unwrap_err();
        assert_eq!(error.kind, ScriptErrorKind::MissingArgument);
        assert_eq!(error.message, "missing pipeline argument");
    }
}

#[test]
fn script_of_a_defined_pipeline() {
    assert_eq!(script_of(&config(), "build"), Ok(script()));
}

#[test]
fn script_of_an_unknown_pipeline() {
    let error = script_of(&config(), "deploy").unwrap_err();
    assert_eq!(error.kind, ScriptErrorKind::UnknownPipeline);
    assert_eq!(error.message, "unknown pipeline: deploy");
}

#[test]
fn script_of_an_unreadable_config() {
    for file in [ConfigFile::Missing, ConfigFile::Invalid("bad".to_string())] {
        let error = script_of(&file, "build").unwrap_err();
        assert_eq!(error.kind, ScriptErrorKind::ConfigUnreadable);
        assert_eq!(error.message, "failed to read .dcicd.toml");
    }
}

#[test]
fn lines_run_in_order_while_they_succeed() {
    assert_eq!(
        next_step(&script(), 0, Exit::Success),
        ScriptStep::Run { line: "cargo build".to_string(), announce: "$> cargo build".to_string() }
    );
    assert_eq!(
        next_step(&script(), 1, Exit::Success),
        ScriptStep::Run { line: "cargo test".to_string(), announce: "$> cargo test".to_string() }
    );
    assert_eq!(next_step(&script(), 2, Exit::Success), ScriptStep::Stop { notice: None });
    assert_eq!(next_step(&Vec::new(), 0, Exit::Success), ScriptStep::Stop { notice: None });
}

#[test]
fn runner_stops_at_a_status_that_is_not_zero() {
    assert_eq!(
        next_step(&script(), 1, Exit::Code(101)),
        ScriptStep::Stop {
            notice: Some("command 'cargo build', exited with none-zero status '101'.".to_string())
        }
    );
    assert_eq!(
        next_step(&script(), 2, Exit::Code(-1)),
        ScriptStep::Stop {
            notice: Some("command 'cargo test', exited with none-zero status '-1'.".to_string())
        }
    );
}

#[test]
fn runner_stops_at_a_signal() {
    assert_eq!(
        next_step(&script(), 1, Exit::Signal),
        ScriptStep::Stop { notice: Some("command 'cargo build', was cancled by a signal.".to_string()) }
    );
}

#[test]
fn steps_beyond_the_script_stop() {
    assert_eq!(next_step(&script(), 3, Exit::Code(1)), ScriptStep::Stop { notice: None });
    assert_eq!(next_step(&script(), 7, Exit::Success), ScriptStep::Stop { notice: None });
    // before the first line there is no line that could have failed
    assert_eq!(
        next_step(&script(), 0, Exit::Signal),
        ScriptStep::Run { line: "cargo build".to_string(), announce: "$> cargo build".to_string() }
    );
}

#[test]
fn notice_of_a_status() {
    assert_eq!(exit_notice("make", "2"), "command 'make', exited with none-zero status '2'.");
}
