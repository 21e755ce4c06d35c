//! The script runner that works inside the container: which pipeline it was
//! asked for, and which line of the pipeline's script it runs next.

use crate::pipeline::{clone_lines, ConfigFile, ConfigFileView, PIPELINE_FILE};
use crate::runner::CONTAINER_REPO_DIR;
use crate::text::{decimal, decimal_text, join};
use vstd::prelude::*;

verus! {

/// What is said where the runner was started without a pipeline's name.
pub const MISSING_ARGUMENT: &'static str = "missing pipeline argument";

/// What is said of a configuration file that is missing or cannot be read.
pub const SCRIPT_CONFIG_UNREADABLE: &'static str = "failed to read .dcicd.toml";

/// The start of what is said of a pipeline that the file does not define.
pub const SCRIPT_UNKNOWN_PIPELINE: &'static str = "unknown pipeline: ";

/// What stands before a line that is about to be run.
pub const PROMPT: &'static str = "$> ";

/// What stands before a line that failed.
pub const COMMAND_OPEN: &'static str = "command '";

/// What follows a line that a signal has ended.
pub const CANCELLED: &'static str = "', was cancled by a signal.";

/// What stands between a line that failed and its status.
pub const EXITED: &'static str = "', exited with none-zero status '";

/// What follows the status of a line that failed.
pub const EXITED_CLOSE: &'static str = "'.";

/// Why the runner cannot run a script at all.
#[derive(Debug, Clone, Copy, PartialEq, Eq, Structural)]
pub enum ScriptErrorKind {
    /// The runner was started without a pipeline's name.
    MissingArgument,
    /// The configuration file is missing or is no table of pipelines.
    ConfigUnreadable,
    /// The configuration file does not define the pipeline.
    UnknownPipeline,
}

/// A script that cannot be run: the kind of failure and the words for it.
#[derive(Debug, PartialEq, Eq)]
pub struct ScriptError {
    pub kind: ScriptErrorKind,
    pub message: String,
}

/// How a line of a script has ended.
#[derive(Debug, Clone, Copy, PartialEq, Eq, Structural)]
pub enum Exit {
    /// With status zero.
    Success,
    /// With this status, which is not zero.
    Code(i32),
    /// By a signal, without a status.
    Signal,
}

/// What the runner does next.
#[derive(Debug, PartialEq, Eq)]
pub enum ScriptStep {
    /// Print `announce`, then run `line` in a shell.
    Run { line: String, announce: String },
    /// Run nothing more; print `notice` first, if there is one.
    Stop { notice: Option<String> },
}

/// What a [`ScriptStep`] holds.
pub enum ScriptStepView {
    Run { line: Seq<char>, announce: Seq<char> },
    Stop { notice: Option<Seq<char>> },
}

impl View for ScriptStep {
    type V = ScriptStepView;

    open spec fn view(&self) -> ScriptStepView {
        match self {
            ScriptStep::Run { line, announce } => ScriptStepView::Run {
                line: line@,
                announce: announce@,
            },
            ScriptStep::Stop { notice } => ScriptStepView::Stop { notice: notice.deep_view() },
        }
    }
}

/// Where the runner finds the configuration file.
pub open spec fn script_config_path() -> Seq<char> {
    CONTAINER_REPO_DIR@ + PIPELINE_FILE@
}

/// Where the runner finds the configuration file.
pub fn config_location() -> (path: String)
    ensures
        path@ == script_config_path(),
{
    join(CONTAINER_REPO_DIR, PIPELINE_FILE)
}

/// The pipeline that the runner was asked for: its first argument after the
/// program's own name.
pub fn requested_pipeline(args: &Vec<String>) -> (r: Result<String, ScriptError>)
    ensures
        r is Ok <==> args.len() >= 2,
        r matches Ok(name) ==> name@ == args@[1]@,
        r matches Err(error) ==> error.kind == ScriptErrorKind::MissingArgument && error.message@
            == MISSING_ARGUMENT@,
{
    if args.len() >= 2 {
        Ok(args[1].clone())
    } else {
        Err(
            ScriptError {
                kind: ScriptErrorKind::MissingArgument,
                message: MISSING_ARGUMENT.to_owned(),
            },
        )
    }
}

/// The script of the pipeline `name`, where the configuration file defines it.
pub fn script_of(file: &ConfigFile, name: &str) -> (r: Result<Vec<String>, ScriptError>)
    ensures
        r is Ok <==> (file@ matches ConfigFileView::Parsed(pipelines) && pipelines.contains_key(
            name@,
        )),
        r matches Ok(script) ==> script.deep_view() == file@->Parsed_0[name@].script,
        r matches Err(error) ==> {
            &&& !(file@ is Parsed) ==> error.kind == ScriptErrorKind::ConfigUnreadable
                && error.message@ == SCRIPT_CONFIG_UNREADABLE@
            &&& file@ is Parsed ==> error.kind == ScriptErrorKind::UnknownPipeline && error.message@
                == SCRIPT_UNKNOWN_PIPELINE@ + name@
        },
{
    match file {
        ConfigFile::Parsed(pipelines) => match pipelines.get(name) {
            Some(pipeline) => Ok(clone_lines(&pipeline.script)),
            None => Err(
                ScriptError {
                    kind: ScriptErrorKind::UnknownPipeline,
                    message: join(SCRIPT_UNKNOWN_PIPELINE, name),
                },
            ),
        },
        _ => Err(
            ScriptError {
                kind: ScriptErrorKind::ConfigUnreadable,
                message: SCRIPT_CONFIG_UNREADABLE.to_owned(),
            },
        ),
    }
}

/// What is said of a line that did not end well; nothing of one that did.
pub open spec fn failure_notice(line: Seq<char>, exit: Exit) -> Option<Seq<char>> {
    match exit {
        Exit::Success => None,
        Exit::Signal => Some(COMMAND_OPEN@ + line + CANCELLED@),
        Exit::Code(status) => Some(
            COMMAND_OPEN@ + line + EXITED@ + decimal_text(status as int) + EXITED_CLOSE@,
        ),
    }
}

/// What the runner does once the first `done` lines of `script` have been
/// run, the last of them with `last`: it stops at the first line that did not
/// end well and says how it ended; else it runs the next line, announced by
/// the prompt and the line; after the last line it stops without a word.
pub open spec fn step_after(script: Seq<Seq<char>>, done: int, last: Exit) -> ScriptStepView {
    if 0 < done <= script.len() && last != Exit::Success {
        ScriptStepView::Stop { notice: failure_notice(script[done - 1], last) }
    } else if 0 <= done < script.len() {
        ScriptStepView::Run { line: script[done], announce: PROMPT@ + script[done] }
    } else {
        ScriptStepView::Stop { notice: None }
    }
}

/// What is said of the line `line` that ended with a status that is not
/// zero, given the status as text.
pub fn exit_notice(line: &str, status_text: &str) -> (notice: String)
    ensures
        notice@ == COMMAND_OPEN@ + line@ + EXITED@ + status_text@ + EXITED_CLOSE@,
{
    let notice = join(COMMAND_OPEN, line);
    let notice = join(notice.as_str(), EXITED);
    let notice = join(notice.as_str(), status_text);
    join(notice.as_str(), EXITED_CLOSE)
}

/// Decides what the runner does once the first `done` lines of `script` have
/// been run, the last of them with `last`. Before the first line `done` is 0
/// and `last` is `Exit::Success`.
pub fn next_step(script: &Vec<String>, done: usize, last: Exit) -> (step: ScriptStep)
    ensures
        step@ == step_after(script.deep_view(), done as int, last),
{
    if 0 < done && done <= script.len() {
        let line = script[done - 1].as_str();
        match last {
            Exit::Signal => {
                let notice = join(COMMAND_OPEN, line);
                return ScriptStep::Stop { notice: Some(join(notice.as_str(), CANCELLED)) };
            },
            Exit::Code(status) => {
                return ScriptStep::Stop {
                    notice: Some(exit_notice(line, decimal(status).as_str())),
                };
            },
            Exit::Success => {},
        }
    }
    if done < script.len() {
        ScriptStep::Run {
            line: script[done].clone(),
            announce: join(PROMPT, script[done].as_str()),
        }
    } else {
        ScriptStep::Stop { notice: None }
    }
}

/// The runner runs a line only if every line before it has ended well: once
/// a line has failed, whatever the lines before it did, the next step is to
/// stop.
pub proof fn lemma_stops_at_first_failure(script: Seq<Seq<char>>, done: int, last: Exit)
    requires
        0 < done <= script.len(),
        last != Exit::Success,
    ensures
        step_after(script, done, last) is Stop,
        step_after(script, done, last)->notice is Some,
{
}

/// While every line ends well the runner goes through the script in order and
/// stops without a word after the last line.
pub proof fn lemma_runs_in_order(script: Seq<Seq<char>>, done: int)
    requires
        0 <= done <= script.len(),
    ensures
        done < script.len() ==> step_after(script, done, Exit::Success) == (ScriptStepView::Run {
            line: script[done],
            announce: PROMPT@ + script[done],
        }),
        done == script.len() ==> step_after(script, done, Exit::Success) == (ScriptStepView::Stop {
            notice: None,
        }),
{
}

} // verus!
