//! The container runner: how the image of a pipeline is built and run, and
//! what a finished run leaves in the log.

use crate::error::{BackendError, BackendErrorView, ErrorKind};
use crate::pipeline::{Pipeline, PipelineView, CACHE_DIR};
use crate::text::join;
use docker_command::command_run::Command;
use docker_command::{BuildOpt, Launcher, RunOpt, Volume};
use vstd::prelude::*;

verus! {

/// The container engine's client.
pub const ENGINE: &'static str = "/usr/bin/docker";

/// The build argument that carries a pipeline's base image.
pub const BASE_IMAGE_ARG: &'static str = "BASE_IMAGE";

/// The tag of the image that is built and run.
pub const IMAGE_TAG: &'static str = "dcicd";

/// Where the working directory is mounted in the container.
pub const CONTAINER_REPO_DIR: &'static str = "/home/dcicd-runner/repo/";

/// What the caller of a pipeline is told when its run has completed.
pub const RUN_SUCCEEDED: &'static str =
    "pipline run completed sucessfully. use `/logs` to view logs.";

/// What the caller of a pipeline is told when its run has failed.
pub const RUN_FAILED: &'static str = "pipline failed! use `/logs to view logs.";

/// The start of the log entry for a container that could not be run.
pub const LAUNCH_DIAGNOSTIC: &'static str =
    "failed to launch runner (Docker/Podman). failed with error, ";

/// The start of the report of a container that could not be run.
pub const LAUNCH_FAILED: &'static str = "failed to launch runner. failed with error, ";

/// The start of the log entry for an image that could not be built.
pub const BUILD_DIAGNOSTIC: &'static str =
    "failed to build runner image (Docker/Podman). failed with error, ";

/// How an image is built.
#[derive(Debug, PartialEq, Eq)]
pub struct BuildOptions {
    /// Build-time variables, as pairs of name and value.
    pub build_args: Vec<(String, String)>,
    /// The directory whose files the build can use.
    pub context: String,
    /// The name that the image is tagged with.
    pub tag: Option<String>,
    /// Whether the build ignores the engine's cache.
    pub no_cache: bool,
}

/// What a [`BuildOptions`] holds.
pub struct BuildOptionsView {
    pub build_args: Seq<(Seq<char>, Seq<char>)>,
    pub context: Seq<char>,
    pub tag: Option<Seq<char>>,
    pub no_cache: bool,
}

impl View for BuildOptions {
    type V = BuildOptionsView;

    open spec fn view(&self) -> BuildOptionsView {
        BuildOptionsView {
            build_args: self.build_args.deep_view(),
            context: self.context@,
            tag: self.tag.deep_view(),
            no_cache: self.no_cache,
        }
    }
}

/// A directory of the host made visible in the container.
#[derive(Debug, PartialEq, Eq)]
pub struct Mount {
    pub src: String,
    pub dst: String,
    pub read_write: bool,
}

/// What a [`Mount`] holds.
pub struct MountView {
    pub src: Seq<char>,
    pub dst: Seq<char>,
    pub read_write: bool,
}

impl DeepView for Mount {
    type V = MountView;

    open spec fn deep_view(&self) -> MountView {
        MountView { src: self.src@, dst: self.dst@, read_write: self.read_write }
    }
}

/// How a container is run.
#[derive(Debug, PartialEq, Eq)]
pub struct RunOptions {
    /// The image to run.
    pub image: String,
    /// Whether the container is removed when it exits.
    pub remove: bool,
    /// The directories mounted in the container.
    pub volumes: Vec<Mount>,
    /// The command that the container runs.
    pub command: Option<String>,
}

/// What a [`RunOptions`] holds.
pub struct RunOptionsView {
    pub image: Seq<char>,
    pub remove: bool,
    pub volumes: Seq<MountView>,
    pub command: Option<Seq<char>>,
}

impl View for RunOptions {
    type V = RunOptionsView;

    open spec fn view(&self) -> RunOptionsView {
        RunOptionsView {
            image: self.image@,
            remove: self.remove,
            volumes: self.volumes.deep_view(),
            command: self.command.deep_view(),
        }
    }
}

/// A command for the container engine, ready to be run in a subprocess.
#[derive(Debug, PartialEq, Eq)]
pub struct CommandLine {
    pub program: String,
    pub args: Vec<String>,
    /// Whether what the command writes is captured.
    pub capture: bool,
    /// Whether its error output is captured together with its output.
    pub combine_output: bool,
}

/// What a [`CommandLine`] holds.
pub struct CommandLineView {
    pub program: Seq<char>,
    pub args: Seq<Seq<char>>,
    pub capture: bool,
    pub combine_output: bool,
}

impl View for CommandLine {
    type V = CommandLineView;

    open spec fn view(&self) -> CommandLineView {
        CommandLineView {
            program: self.program@,
            args: self.args.deep_view(),
            capture: self.capture,
            combine_output: self.combine_output,
        }
    }
}

/// The sub-command of the engine's client that builds an image.
pub const SUBCOMMAND_BUILD: &'static str = "build";

/// The option that stands before each build-time variable.
pub const OPTION_BUILD_ARG: &'static str = "--build-arg";

/// What stands between a build-time variable's name and its value.
pub const ASSIGN: &'static str = "=";

/// The option that switches the engine's cache off.
pub const OPTION_NO_CACHE: &'static str = "--no-cache";

/// The option that stands before the image's tag.
pub const OPTION_TAG: &'static str = "--tag";

/// The sub-command of the engine's client that runs a container.
pub const SUBCOMMAND_RUN: &'static str = "run";

/// The option that removes the container when it exits.
pub const OPTION_REMOVE: &'static str = "--rm";

/// The option that stands before each mount.
pub const OPTION_VOLUME: &'static str = "--volume";

/// What stands between a mount's source and its destination.
pub const MOUNT_SEPARATOR: &'static str = ":";

/// What ends a mount that the container may write to.
pub const MOUNT_READ_WRITE: &'static str = ":rw";

/// What ends a mount that the container may only read.
pub const MOUNT_READ_ONLY: &'static str = ":ro";

/// The arguments for the build-time variables: for each, in order, the
/// option word and then `name=value`.
pub open spec fn build_arg_words(build_args: Seq<(Seq<char>, Seq<char>)>) -> Seq<Seq<char>>
    decreases build_args.len(),
{
    if build_args.len() == 0 {
        Seq::empty()
    } else {
        seq![OPTION_BUILD_ARG@, build_args[0].0 + ASSIGN@ + build_args[0].1] + build_arg_words(
            build_args.skip(1),
        )
    }
}

/// The arguments that `docker_command::Launcher::build` gives the engine's
/// client for these options: the sub-command, the build-time variables, the
/// option that switches the cache off where it is set, the tag where there is
/// one, and last the context.
pub open spec fn docker_build_args(opts: BuildOptionsView) -> Seq<Seq<char>> {
    seq![SUBCOMMAND_BUILD@] + build_arg_words(opts.build_args) + (if opts.no_cache {
        seq![OPTION_NO_CACHE@]
    } else {
        Seq::empty()
    }) + (match opts.tag {
        Some(tag) => seq![OPTION_TAG@, tag],
        None => Seq::empty(),
    }) + seq![opts.context]
}

/// The argument for one mount: source, destination and whether the
/// container may write to it.
pub open spec fn mount_word(mount: MountView) -> Seq<char> {
    mount.src + MOUNT_SEPARATOR@ + mount.dst + (if mount.read_write {
        MOUNT_READ_WRITE@
    } else {
        MOUNT_READ_ONLY@
    })
}

/// The arguments for the mounts: for each, in order, the option word and
/// then the mount.
pub open spec fn mount_words(volumes: Seq<MountView>) -> Seq<Seq<char>>
    decreases volumes.len(),
{
    if volumes.len() == 0 {
        Seq::empty()
    } else {
        seq![OPTION_VOLUME@, mount_word(volumes[0])] + mount_words(volumes.skip(1))
    }
}

/// The arguments that `docker_command::Launcher::run` gives the engine's
/// client for these options: the sub-command, the option that removes the
/// container on exit where it is set, the mounts, the image, and last the
/// command where there is one.
pub open spec fn docker_run_args(opts: RunOptionsView) -> Seq<Seq<char>> {
    seq![SUBCOMMAND_RUN@] + (if opts.remove {
        seq![OPTION_REMOVE@]
    } else {
        Seq::empty()
    }) + mount_words(opts.volumes) + seq![opts.image] + (match opts.command {
        Some(command) => seq![command],
        None => Seq::empty(),
    })
}

/// What `String::from_utf8_lossy` makes of `bytes`.
pub uninterp spec fn lossy_text(bytes: Seq<u8>) -> Seq<char>;

/// Calls `docker_command::Launcher::build` on a launcher whose base command
/// is `program` alone, with the given options and every other option at its
/// default. The result is the argument list of the command that comes back:
/// the words that the function appends for the options given, in its order.
#[verifier::external_body]
fn build_args(program: &str, opts: &BuildOptions) -> (args: Vec<String>)
    ensures
        args.deep_view() == docker_build_args(opts@),
{
    let opt = BuildOpt {
        build_args: opts.build_args.clone(),
        context: opts.context.clone().into(),
        tag: opts.tag.clone(),
        no_cache: opts.no_cache,
        ..Default::default()
    };
    let command = Launcher::new(Command::new(program)).build(opt);
    command.args.iter().map(|arg| arg.to_string_lossy().into_owned()).collect()
}

/// Calls `docker_command::Launcher::run` on a launcher whose base command is
/// `program` alone, with the given options and every other option at its
/// default. The result is the argument list of the command that comes back:
/// the words that the function appends for the options given, in its order,
/// each mount written as `Volume::arg` writes it.
#[verifier::external_body]
fn run_args(program: &str, opts: &RunOptions) -> (args: Vec<String>)
    ensures
        args.deep_view() == docker_run_args(opts@),
{
    let volume = |m: &Mount| Volume {
        src: m.src.clone().into(),
        dst: m.dst.clone().into(),
        read_write: m.read_write,
        ..Default::default()
    };
    let opt = RunOpt {
        image: opts.image.clone(),
        remove: opts.remove,
        volumes: opts.volumes.iter().map(volume).collect(),
        command: opts.command.clone().map(Into::into),
        ..Default::default()
    };
    let command = Launcher::new(Command::new(program)).run(opt);
    command.args.iter().map(|arg| arg.to_string_lossy().into_owned()).collect()
}

/// Decodes captured output with `String::from_utf8_lossy`.
#[verifier::external_body]
fn decode_lossy(bytes: &Vec<u8>) -> (text: String)
    ensures
        text@ == lossy_text(bytes@),
{
    String::from_utf8_lossy(bytes).into_owned()
}

/// Why the container engine did not do what it was asked to.
#[derive(Debug, PartialEq, Eq)]
pub enum EngineFailure {
    /// The engine's client could not be started; the text says why.
    Unavailable(String),
    /// The client ran and reported a failure; the text says which.
    Failed(String),
}

/// What an [`EngineFailure`] holds.
pub enum EngineFailureView {
    Unavailable(Seq<char>),
    Failed(Seq<char>),
}

impl EngineFailureView {
    /// The engine's own words.
    pub open spec fn text(self) -> Seq<char> {
        match self {
            EngineFailureView::Unavailable(text) => text,
            EngineFailureView::Failed(text) => text,
        }
    }

    /// The kind of error that this failure is, where `otherwise` is the kind
    /// of a failure that the engine itself reports.
    pub open spec fn kind(self, otherwise: ErrorKind) -> ErrorKind {
        match self {
            EngineFailureView::Unavailable(_) => ErrorKind::EngineUnavailable,
            EngineFailureView::Failed(_) => otherwise,
        }
    }
}

impl View for EngineFailure {
    type V = EngineFailureView;

    open spec fn view(&self) -> EngineFailureView {
        match self {
            EngineFailure::Unavailable(text) => EngineFailureView::Unavailable(text@),
            EngineFailure::Failed(text) => EngineFailureView::Failed(text@),
        }
    }
}

impl EngineFailure {
    /// The engine's own words.
    pub fn text(&self) -> (r: &str)
        ensures
            r@ == self@.text(),
    {
        match self {
            EngineFailure::Unavailable(text) => text.as_str(),
            EngineFailure::Failed(text) => text.as_str(),
        }
    }

    /// The kind of error that this failure is.
    pub fn kind(&self, otherwise: ErrorKind) -> (r: ErrorKind)
        ensures
            r == self@.kind(otherwise),
    {
        match self {
            EngineFailure::Unavailable(_) => ErrorKind::EngineUnavailable,
            EngineFailure::Failed(_) => otherwise,
        }
    }
}

/// How the image of `pipeline` is built: from the working directory, with the
/// pipeline's base image as a build argument, under the fixed tag, without
/// the engine's cache.
pub open spec fn build_options_for(pipeline: PipelineView) -> BuildOptionsView {
    BuildOptionsView {
        build_args: seq![(BASE_IMAGE_ARG@, pipeline.container)],
        context: CACHE_DIR@,
        tag: Some(IMAGE_TAG@),
        no_cache: true,
    }
}

/// How the pipeline named `pipeline_name` is run: the fixed image, removed on
/// exit, with the working directory mounted read-write at its fixed place and
/// the pipeline's name as the container's command.
pub open spec fn run_options_for(pipeline_name: Seq<char>) -> RunOptionsView {
    RunOptionsView {
        image: IMAGE_TAG@,
        remove: true,
        volumes: seq![
            MountView { src: CACHE_DIR@, dst: CONTAINER_REPO_DIR@, read_write: true },
        ],
        command: Some(pipeline_name),
    }
}

/// The command that builds the image of `pipeline`. Its output is not captured.
pub open spec fn build_command_for(pipeline: PipelineView) -> CommandLineView {
    CommandLineView {
        program: ENGINE@,
        args: docker_build_args(build_options_for(pipeline)),
        capture: false,
        combine_output: false,
    }
}

/// The command that runs the pipeline named `pipeline_name`. Its output and
/// error output are captured as one stream.
pub open spec fn run_command_for(pipeline_name: Seq<char>) -> CommandLineView {
    CommandLineView {
        program: ENGINE@,
        args: docker_run_args(run_options_for(pipeline_name)),
        capture: true,
        combine_output: true,
    }
}

/// The arguments of the command that builds the image of `pipeline`, word
/// by word.
pub proof fn lemma_build_arguments(pipeline: PipelineView)
    ensures
        build_command_for(pipeline).args == seq![
            SUBCOMMAND_BUILD@,
            OPTION_BUILD_ARG@,
            BASE_IMAGE_ARG@ + ASSIGN@ + pipeline.container,
            OPTION_NO_CACHE@,
            OPTION_TAG@,
            IMAGE_TAG@,
            CACHE_DIR@,
        ],
{
    let build_args = build_options_for(pipeline).build_args;
    assert(build_args.skip(1).len() == 0);
    assert(build_arg_words(build_args.skip(1)) =~= Seq::<Seq<char>>::empty());
    assert(build_args[0] == (BASE_IMAGE_ARG@, pipeline.container));
    assert(build_arg_words(build_args) =~= seq![
        OPTION_BUILD_ARG@,
        BASE_IMAGE_ARG@ + ASSIGN@ + pipeline.container,
    ]);
    assert(build_command_for(pipeline).args =~= seq![
        SUBCOMMAND_BUILD@,
        OPTION_BUILD_ARG@,
        BASE_IMAGE_ARG@ + ASSIGN@ + pipeline.container,
        OPTION_NO_CACHE@,
        OPTION_TAG@,
        IMAGE_TAG@,
        CACHE_DIR@,
    ]);
}

/// The arguments of the command that runs the pipeline named
/// `pipeline_name`, word by word.
pub proof fn lemma_run_arguments(pipeline_name: Seq<char>)
    ensures
        run_command_for(pipeline_name).args == seq![
            SUBCOMMAND_RUN@,
            OPTION_REMOVE@,
            OPTION_VOLUME@,
            CACHE_DIR@ + MOUNT_SEPARATOR@ + CONTAINER_REPO_DIR@ + MOUNT_READ_WRITE@,
            IMAGE_TAG@,
            pipeline_name,
        ],
{
    let volumes = run_options_for(pipeline_name).volumes;
    assert(volumes.skip(1).len() == 0);
    assert(mount_words(volumes.skip(1)) =~= Seq::<Seq<char>>::empty());
    assert(mount_word(volumes[0]) == CACHE_DIR@ + MOUNT_SEPARATOR@ + CONTAINER_REPO_DIR@
        + MOUNT_READ_WRITE@);
    assert(mount_words(volumes) =~= seq![
        OPTION_VOLUME@,
        CACHE_DIR@ + MOUNT_SEPARATOR@ + CONTAINER_REPO_DIR@ + MOUNT_READ_WRITE@,
    ]);
    assert(run_command_for(pipeline_name).args =~= seq![
        SUBCOMMAND_RUN@,
        OPTION_REMOVE@,
        OPTION_VOLUME@,
        CACHE_DIR@ + MOUNT_SEPARATOR@ + CONTAINER_REPO_DIR@ + MOUNT_READ_WRITE@,
        IMAGE_TAG@,
        pipeline_name,
    ]);
}

/// How the image of `pipeline` is built.
pub fn build_options(pipeline: &Pipeline) -> (opts: BuildOptions)
    ensures
        opts@ == build_options_for(pipeline@),
{
    let mut build_args: Vec<(String, String)> = Vec::new();
    build_args.push((BASE_IMAGE_ARG.to_owned(), pipeline.container.clone()));
    let opts = BuildOptions {
        build_args,
        context: CACHE_DIR.to_owned(),
        tag: Some(IMAGE_TAG.to_owned()),
        no_cache: true,
    };
    assert(opts@.build_args =~= build_options_for(pipeline@).build_args);
    opts
}

/// How the pipeline named `pipeline_name` is run.
pub fn run_options(pipeline_name: &str) -> (opts: RunOptions)
    ensures
        opts@ == run_options_for(pipeline_name@),
{
    let mut volumes: Vec<Mount> = Vec::new();
    volumes.push(
        Mount { src: CACHE_DIR.to_owned(), dst: CONTAINER_REPO_DIR.to_owned(), read_write: true },
    );
    let opts = RunOptions {
        image: IMAGE_TAG.to_owned(),
        remove: true,
        volumes,
        command: Some(pipeline_name.to_owned()),
    };
    assert(opts@.volumes =~= run_options_for(pipeline_name@).volumes);
    opts
}

/// A command of the engine's client with the given arguments.
pub fn engine_command(args: Vec<String>, capture: bool, combine_output: bool) -> (command:
    CommandLine)
    ensures
        command@ == (CommandLineView {
            program: ENGINE@,
            args: args.deep_view(),
            capture,
            combine_output,
        }),
{
    CommandLine { program: ENGINE.to_owned(), args, capture, combine_output }
}

/// The command of the engine's client that builds an image as `opts` says.
/// Its output is not captured.
pub fn command_to_build(opts: &BuildOptions) -> (command: CommandLine)
    ensures
        command@ == (CommandLineView {
            program: ENGINE@,
            args: docker_build_args(opts@),
            capture: false,
            combine_output: false,
        }),
{
    engine_command(build_args(ENGINE, opts), false, false)
}

/// The command of the engine's client that runs a container as `opts` says.
/// Its output and error output are captured as one stream.
pub fn command_to_run(opts: &RunOptions) -> (command: CommandLine)
    ensures
        command@ == (CommandLineView {
            program: ENGINE@,
            args: docker_run_args(opts@),
            capture: true,
            combine_output: true,
        }),
{
    engine_command(run_args(ENGINE, opts), true, true)
}

/// The command that builds the image of `pipeline`.
pub fn build_command(pipeline: &Pipeline) -> (command: CommandLine)
    ensures
        command@ == build_command_for(pipeline@),
{
    command_to_build(&build_options(pipeline))
}

/// The command that runs the pipeline named `pipeline_name`.
pub fn run_command(pipeline_name: &str) -> (command: CommandLine)
    ensures
        command@ == run_command_for(pipeline_name@),
{
    command_to_run(&run_options(pipeline_name))
}

/// What the end of a run leaves behind: the new content of the log, what the
/// caller of the pipeline is told, and the error to report, if the run failed.
#[derive(Debug, PartialEq, Eq)]
pub struct RunReport {
    pub log: String,
    pub message: String,
    pub error: Option<BackendError>,
}

/// What a [`RunReport`] holds.
pub struct RunReportView {
    pub log: Seq<char>,
    pub message: Seq<char>,
    pub error: Option<BackendErrorView>,
}

impl View for RunReport {
    type V = RunReportView;

    open spec fn view(&self) -> RunReportView {
        RunReportView { log: self.log@, message: self.message@, error: self.error.deep_view() }
    }
}

/// The report of a run whose captured output reads `text`: the text goes to
/// the log and the caller is told of the success.
pub open spec fn report_of_output(text: Seq<char>) -> RunReportView {
    RunReportView { log: text, message: RUN_SUCCEEDED@, error: None }
}

/// The report of a run whose container could not be run: a diagnostic goes
/// to the log and the caller is told of the failure.
pub open spec fn report_of_launch_failure(failure: EngineFailureView) -> RunReportView {
    RunReportView {
        log: LAUNCH_DIAGNOSTIC@ + failure.text(),
        message: RUN_FAILED@,
        error: Some(
            BackendErrorView {
                kind: failure.kind(ErrorKind::ContainerRunFailed),
                message: LAUNCH_FAILED@ + failure.text(),
            },
        ),
    }
}

/// The report of a run whose image could not be built: a diagnostic goes to
/// the log and the caller is told of the failure.
pub open spec fn report_of_build_failure(failure: EngineFailureView) -> RunReportView {
    RunReportView {
        log: BUILD_DIAGNOSTIC@ + failure.text(),
        message: RUN_FAILED@,
        error: Some(
            BackendErrorView {
                kind: failure.kind(ErrorKind::ContainerBuildFailed),
                message: failure.text(),
            },
        ),
    }
}

/// The report of a run that ended with `outcome`: the captured output of a
/// container that ran, or the failure to run it.
pub open spec fn report_of_run(outcome: Result<Seq<u8>, EngineFailureView>) -> RunReportView {
    match outcome {
        Ok(bytes) => report_of_output(lossy_text(bytes)),
        Err(failure) => report_of_launch_failure(failure),
    }
}

/// The report of a run whose captured output reads `text`.
pub fn report_output(text: String) -> (report: RunReport)
    ensures
        report@ == report_of_output(text@),
{
    RunReport { log: text, message: RUN_SUCCEEDED.to_owned(), error: None }
}

/// The report of a run whose container could not be run.
pub fn report_launch_failure(failure: &EngineFailure) -> (report: RunReport)
    ensures
        report@ == report_of_launch_failure(failure@),
{
    RunReport {
        log: join(LAUNCH_DIAGNOSTIC, failure.text()),
        message: RUN_FAILED.to_owned(),
        error: Some(
            BackendError {
                kind: failure.kind(ErrorKind::ContainerRunFailed),
                message: join(LAUNCH_FAILED, failure.text()),
            },
        ),
    }
}

/// The report of a run whose image could not be built.
pub fn report_build_failure(failure: &EngineFailure) -> (report: RunReport)
    ensures
        report@ == report_of_build_failure(failure@),
{
    RunReport {
        log: join(BUILD_DIAGNOSTIC, failure.text()),
        message: RUN_FAILED.to_owned(),
        error: Some(
            BackendError {
                kind: failure.kind(ErrorKind::ContainerBuildFailed),
                message: failure.text().to_owned(),
            },
        ),
    }
}

/// The report of a run that ended with `outcome`.
pub fn report_run(outcome: &Result<Vec<u8>, EngineFailure>) -> (report: RunReport)
    ensures
        report@ == report_of_run(
            match outcome {
                Ok(bytes) => Ok(bytes@),
                Err(failure) => Err(failure@),
            },
        ),
{
    match outcome {
        Ok(bytes) => report_output(decode_lossy(bytes)),
        Err(failure) => report_launch_failure(failure),
    }
}

} // verus!
