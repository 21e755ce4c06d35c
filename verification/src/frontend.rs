//! What the chat front-end decides: which repositories are tracked, and what
//! a request to show, load or run is answered with and turned into.

use crate::links::{sorted_names, RepoLinks};
use crate::pipeline::PipelineName;
use crate::repo::{
    git_extension, is_git_link, parse_url, parsed_url, repo_name_from_path, repo_name_of,
};
use crate::state::{BackendState, BackendStateView};
use crate::text::{has_suffix, join, same_text};
use vstd::prelude::*;

verus! {

/// The answer to a link that was registered.
pub const REGISTERED: &'static str = "added. now tracking the requested repo.";

/// The answer to a link that is not one to a git repository.
pub const NOT_A_GIT_LINK: &'static str = "that is not a valiud git link";

/// The answer to a request to show the projects.
pub const PROJECTS_NOT_SHOWN: &'static str = "not yet programed";

/// The answer to a request to show the pipelines.
pub const PIPELINES_NOT_SHOWN: &'static str = "not yet programmed";

/// What follows the name of something that cannot be shown.
pub const NOT_SHOWABLE: &'static str = " is not a known entity and thus cannot be shown.";

/// What stands before the name of a repository that is being loaded.
pub const LOADED: &'static str = "loaded ";

/// What ends the answer to a repository that is being loaded.
pub const FULL_STOP: &'static str = ".";

/// What stands before the name of a repository that was never registered.
pub const UNKNOWN_REPO: &'static str = "unknown git repo ";

/// What follows the name of a repository that was never registered.
pub const TRY_SHOW: &'static str = ". try: `/show Repos`";

/// What follows the name of a repository that is loaded already.
pub const ALREADY_LOADED: &'static str = " is already loaded";

/// What stands before the name of the pipeline that runs.
pub const ALREADY_RUNNING: &'static str = "already running ";

/// What stands between the pipeline that runs and the name of its repository.
pub const FROM_REPOSITORY: &'static str = " from the repository, ";

/// What ends the answer to a request to load while a pipeline runs.
pub const CANNOT_LOAD: &'static str =
    ". a new repo cant be loaded until the current pipeline finishes.";

/// What ends the answer to a request to run while a pipeline runs.
pub const CANNOT_RUN: &'static str =
    ". a new pipline cant be run until the current pipeline finishes.";

/// The answer to a request to run while no repository is loaded.
pub const MUST_LOAD: &'static str = "must `/load` a repo before running a pipeline.";

/// What stands before the name of a pipeline that was started.
pub const STARTED: &'static str = "started pipline ";

/// What follows the name of a pipeline that was started.
pub const USE_LOGS: &'static str = ". use `/logs` to get logs.";

/// The answer where the end of a run was never told.
pub const NO_COMPLETION: &'static str = "error retrieving logs.";

/// The start of the answer where the clone could not be asked for.
pub const CLONE_NOT_SENT: &'static str = "failed to clone repo. ";

/// What stands before the URL in the reply of the registration end point.
pub const REGISTRATION_OPEN: &'static str = "git repo \"";

/// What follows the URL in the reply of the registration end point.
pub const REGISTRATION_CLOSE: &'static str = "\" registered successfully";

/// What can be shown.
#[derive(Clone, Copy, PartialEq, Eq, PartialOrd, Ord, Debug, Structural)]
pub enum ShowArgs {
    Pipelines,
    Projects,
    Repos,
}

/// What `word` asks to show, if it is one of the three words.
pub open spec fn show_args_of(word: Seq<char>) -> Option<ShowArgs> {
    if word == "pipelines"@ {
        Some(ShowArgs::Pipelines)
    } else if word == "projects"@ {
        Some(ShowArgs::Projects)
    } else if word == "repos"@ {
        Some(ShowArgs::Repos)
    } else {
        None
    }
}

impl ShowArgs {
    /// Reads what to show from its word. Any other word is refused, with an
    /// answer that starts with the word.
    pub fn from_str(s: &str) -> (r: Result<ShowArgs, String>)
        ensures
            r is Ok <==> show_args_of(s@) is Some,
            r matches Ok(showable) ==> show_args_of(s@) == Some(showable),
            r matches Err(answer) ==> show_args_of(s@) is None && answer@ == s@ + NOT_SHOWABLE@,
    {
        if same_text(s, "pipelines") {
            Ok(ShowArgs::Pipelines)
        } else if same_text(s, "projects") {
            Ok(ShowArgs::Projects)
        } else if same_text(s, "repos") {
            Ok(ShowArgs::Repos)
        } else {
            Err(join(s, NOT_SHOWABLE))
        }
    }
}

impl std::str::FromStr for ShowArgs {
    type Err = String;

    /// Reads what to show from its word, as the method of the same name does:
    /// this is what `str::parse` calls.
    fn from_str(s: &str) -> (r: Result<Self, Self::Err>)
        ensures
            r is Ok <==> show_args_of(s@) is Some,
            r matches Ok(showable) ==> show_args_of(s@) == Some(showable),
            r matches Err(answer) ==> show_args_of(s@) is None && answer@ == s@ + NOT_SHOWABLE@,
    {
        ShowArgs::from_str(s)
    }
}

/// What the front-end keeps: the repositories that were registered.
#[derive(Debug, PartialEq, Eq)]
pub struct Data {
    pub git_links: RepoLinks,
}

impl View for Data {
    type V = Map<Seq<char>, Seq<char>>;

    open spec fn view(&self) -> Map<Seq<char>, Seq<char>> {
        self.git_links@
    }
}

impl Data {
    /// Nothing registered yet.
    pub fn new() -> (data: Data)
        ensures
            data@ == Map::<Seq<char>, Seq<char>>::empty(),
    {
        Data { git_links: RepoLinks::new() }
    }
}

/// What registering a link does, given what the URL parser made of it: a URL
/// that ends with `.git` is tracked under the name derived from its path;
/// anything else is refused and changes nothing.
pub open spec fn register_spec(
    links: Map<Seq<char>, Seq<char>>,
    parsed: Option<(Seq<char>, Seq<char>)>,
) -> (Map<Seq<char>, Seq<char>>, Seq<char>) {
    match parsed {
        Some(parts) => if has_suffix(parts.0, git_extension()) {
            (links.insert(repo_name_of(parts.1), parts.0), REGISTERED@)
        } else {
            (links, NOT_A_GIT_LINK@)
        },
        None => (links, NOT_A_GIT_LINK@),
    }
}

/// Registers a link that the URL parser has taken apart: `parsed` holds the
/// URL as the parser serializes it and its path, or nothing where the link is
/// no URL.
pub fn register_parsed(data: &mut Data, parsed: Option<(String, String)>) -> (response: String)
    ensures
        (final(data)@, response@) == register_spec(
            old(data)@,
            match parsed {
                Some(parts) => Some((parts.0@, parts.1@)),
                None => None,
            },
        ),
{
    match parsed {
        Some(parts) => {
            if is_git_link(parts.0.as_str()) {
                let name = repo_name_from_path(parts.1.as_str());
                data.git_links.insert(name, parts.0);
                REGISTERED.to_owned()
            } else {
                NOT_A_GIT_LINK.to_owned()
            }
        },
        None => NOT_A_GIT_LINK.to_owned(),
    }
}

/// Registers a git repository so that it can be loaded later.
pub fn resgister(data: &mut Data, git_url: &str) -> (response: String)
    ensures
        (final(data)@, response@) == register_spec(old(data)@, parsed_url(git_url@)),
{
    register_parsed(data, parse_url(git_url))
}

/// The reply of the registration end point to a request that names
/// `clone_url`: the URL in quotes, between the fixed words.
pub fn registered_reply(clone_url: &str) -> (reply: String)
    ensures
        reply@ == REGISTRATION_OPEN@ + clone_url@ + REGISTRATION_CLOSE@,
{
    let reply = join(REGISTRATION_OPEN, clone_url);
    join(reply.as_str(), REGISTRATION_CLOSE)
}

/// What `std`'s `Debug` formatting makes of a list of strings.
pub uninterp spec fn debug_text(names: Seq<Seq<char>>) -> Seq<char>;

/// Formats a list of strings with `format!("{:?}", ..)`, that is with the
/// `Debug` formatting of `Vec<String>`.
#[verifier::external_body]
fn debug_list(names: &Vec<String>) -> (text: String)
    ensures
        text@ == debug_text(names.deep_view()),
{
    format!("{:?}", names)
}

/// The answer to a request to show something: for the repositories, the
/// registered names in ascending order, as a list.
pub open spec fn show_spec(links: Map<Seq<char>, Seq<char>>, showable: ShowArgs) -> Seq<char> {
    match showable {
        ShowArgs::Repos => debug_text(sorted_names(links)),
        ShowArgs::Projects => PROJECTS_NOT_SHOWN@,
        ShowArgs::Pipelines => PIPELINES_NOT_SHOWN@,
    }
}

/// The registered names, in the order in which they are shown.
pub fn shown_repos(data: &Data) -> (names: Vec<String>)
    ensures
        names.deep_view() == sorted_names(data@),
{
    data.git_links.names()
}

/// Shows state information.
pub fn show(data: &Data, showable: ShowArgs) -> (response: String)
    ensures
        response@ == show_spec(data@, showable),
{
    match showable {
        ShowArgs::Repos => debug_list(&shown_repos(data)),
        ShowArgs::Projects => PROJECTS_NOT_SHOWN.to_owned(),
        ShowArgs::Pipelines => PIPELINES_NOT_SHOWN.to_owned(),
    }
}

/// What a request to load a repository is turned into.
#[derive(Debug, PartialEq, Eq)]
pub enum LoadPlan {
    /// Ask the backend to clone `url`, and answer with `response` once the
    /// command is on its way.
    Clone { url: String, response: String },
    /// Ask for nothing and answer with this.
    Reply(String),
}

/// What a [`LoadPlan`] holds.
pub enum LoadPlanView {
    Clone { url: Seq<char>, response: Seq<char> },
    Reply(Seq<char>),
}

impl View for LoadPlan {
    type V = LoadPlanView;

    open spec fn view(&self) -> LoadPlanView {
        match self {
            LoadPlan::Clone { url, response } => LoadPlanView::Clone {
                url: url@,
                response: response@,
            },
            LoadPlan::Reply(response) => LoadPlanView::Reply(response@),
        }
    }
}

/// What is said while the pipeline `pipeline` of the repository `repo_name`
/// runs, before the words that say what cannot be done meanwhile.
pub open spec fn already_running(pipeline: Seq<char>, repo_name: Seq<char>) -> Seq<char> {
    ALREADY_RUNNING@ + pipeline + FROM_REPOSITORY@ + repo_name
}

/// What loading `repo` comes to where the backend's state allows it: a clone
/// of its URL where the name is registered, else the answer that it is not.
pub open spec fn load_registered(links: Map<Seq<char>, Seq<char>>, repo: Seq<char>) -> LoadPlanView {
    if links.contains_key(repo) {
        LoadPlanView::Clone { url: links[repo], response: LOADED@ + repo + FULL_STOP@ }
    } else {
        LoadPlanView::Reply(UNKNOWN_REPO@ + repo + TRY_SHOW@)
    }
}

/// What a request to load `repo` is turned into while the backend is in
/// `state`: nothing while a pipeline runs or where `repo` is loaded already.
pub open spec fn load_spec(
    links: Map<Seq<char>, Seq<char>>,
    state: BackendStateView,
    repo: Seq<char>,
) -> LoadPlanView {
    match state {
        BackendStateView::NotConfigured => load_registered(links, repo),
        BackendStateView::Available { repo: loaded } => if loaded.repo_name != repo {
            load_registered(links, repo)
        } else {
            LoadPlanView::Reply(repo + ALREADY_LOADED@)
        },
        BackendStateView::RunningPipeline { repo: loaded, pipeline } => LoadPlanView::Reply(
            already_running(pipeline, loaded.repo_name) + CANNOT_LOAD@,
        ),
    }
}

/// What is said while a pipeline runs.
fn say_already_running(pipeline: &str, repo_name: &str, rest: &str) -> (text: String)
    ensures
        text@ == already_running(pipeline@, repo_name@) + rest@,
{
    let text = join(ALREADY_RUNNING, pipeline);
    let text = join(text.as_str(), FROM_REPOSITORY);
    let text = join(text.as_str(), repo_name);
    join(text.as_str(), rest)
}

/// What loading `repo` comes to where the backend's state allows it.
fn load_if_registered(data: &Data, repo: &str) -> (plan: LoadPlan)
    ensures
        plan@ == load_registered(data@, repo@),
{
    match data.git_links.get(repo) {
        Some(url) => {
            let response = join(LOADED, repo);
            LoadPlan::Clone { url: url.clone(), response: join(response.as_str(), FULL_STOP) }
        },
        None => {
            let response = join(UNKNOWN_REPO, repo);
            LoadPlan::Reply(join(response.as_str(), TRY_SHOW))
        },
    }
}

/// Decides what a request to load `repo` is turned into.
pub fn load(data: &Data, state: &BackendState, repo: &str) -> (plan: LoadPlan)
    ensures
        plan@ == load_spec(data@, state@, repo@),
{
    match state {
        BackendState::NotConfigured => load_if_registered(data, repo),
        BackendState::Available { repo: loaded } => {
            if !same_text(loaded.repo_name.as_str(), repo) {
                load_if_registered(data, repo)
            } else {
                LoadPlan::Reply(join(repo, ALREADY_LOADED))
            }
        },
        BackendState::RunningPipeline { repo: loaded, pipeline } => LoadPlan::Reply(
            say_already_running(pipeline.as_str(), loaded.repo_name.as_str(), CANNOT_LOAD),
        ),
    }
}

/// The answer to a request to load where the clone could not be asked for.
pub fn clone_not_sent(reason: &str) -> (response: String)
    ensures
        response@ == CLONE_NOT_SENT@ + reason@,
{
    join(CLONE_NOT_SENT, reason)
}

/// What a request to run a pipeline is turned into.
#[derive(Debug, PartialEq, Eq)]
pub enum RunPlan {
    /// Ask the backend for a fresh clone of `url` and then for a run of
    /// `pipeline_name`; answer with `response` at once, and with what the
    /// run's completion tells when it has ended.
    Start { url: String, pipeline_name: PipelineName, response: String },
    /// Ask for nothing and answer with this.
    Reply(String),
}

/// What a [`RunPlan`] holds.
pub enum RunPlanView {
    Start { url: Seq<char>, pipeline_name: Seq<char>, response: Seq<char> },
    Reply(Seq<char>),
}

impl View for RunPlan {
    type V = RunPlanView;

    open spec fn view(&self) -> RunPlanView {
        match self {
            RunPlan::Start { url, pipeline_name, response } => RunPlanView::Start {
                url: url@,
                pipeline_name: pipeline_name@,
                response: response@,
            },
            RunPlan::Reply(response) => RunPlanView::Reply(response@),
        }
    }
}

/// What a request to run `pipeline` is turned into while the backend is in
/// `state`: a run only where a repository is loaded and idle.
pub open spec fn run_plan_spec(state: BackendStateView, pipeline: Seq<char>) -> RunPlanView {
    match state {
        BackendStateView::NotConfigured => RunPlanView::Reply(MUST_LOAD@),
        BackendStateView::Available { repo } => RunPlanView::Start {
            url: repo.url,
            pipeline_name: pipeline,
            response: STARTED@ + pipeline + USE_LOGS@,
        },
        BackendStateView::RunningPipeline { repo, pipeline: running } => RunPlanView::Reply(
            already_running(running, repo.repo_name) + CANNOT_RUN@,
        ),
    }
}

/// Decides what a request to run `pipeline` is turned into.
pub fn run(state: &BackendState, pipeline: &str) -> (plan: RunPlan)
    ensures
        plan@ == run_plan_spec(state@, pipeline@),
{
    match state {
        BackendState::NotConfigured => RunPlan::Reply(MUST_LOAD.to_owned()),
        BackendState::Available { repo } => {
            let response = join(STARTED, pipeline);
            RunPlan::Start {
                url: repo.url.clone(),
                pipeline_name: pipeline.to_owned(),
                response: join(response.as_str(), USE_LOGS),
            }
        },
        BackendState::RunningPipeline { repo, pipeline: running } => RunPlan::Reply(
            say_already_running(running.as_str(), repo.repo_name.as_str(), CANNOT_RUN),
        ),
    }
}

/// The last answer to a request to run: what the run's completion told, or
/// that nothing was told.
pub fn run_response(told: Option<String>) -> (response: String)
    ensures
        response@ == match told {
            Some(message) => message@,
            None => NO_COMPLETION@,
        },
{
    match told {
        Some(message) => message,
        None => NO_COMPLETION.to_owned(),
    }
}

} // verus!
