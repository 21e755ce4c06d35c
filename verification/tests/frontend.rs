use discord_ci_cd::frontend::{
    clone_not_sent, register_parsed, registered_reply, run_response, shown_repos, LoadPlan,
    RunPlan,
};
use discord_ci_cd::links::RepoLinks;
use discord_ci_cd::repo::Repo;
use discord_ci_cd::state::BackendState;
use discord_ci_cd::{load, resgister, run, show, Data, ShowArgs};

fn repo() -> Repo {
    Repo { repo_name: "team/project".to_string(), url: "https://example.com/team/project.git".to_string() }
}

fn registered() -> Data {
    let mut data = Data::new();
    assert_eq!(resgister(&mut data, "https://example.com/team/project.git"), "added. now tracking the requested repo.");
    assert_eq!(resgister(&mut data, "https://example.com/alpha/one.git"), "added. now tracking the requested repo.");
    data
}

#[test]
fn show_args_from_their_words() {
    assert_eq!(ShowArgs::from_str("pipelines"), Ok(ShowArgs::Pipelines));
    assert_eq!(ShowArgs::from_str("projects"), Ok(ShowArgs::Projects));
    assert_eq!(ShowArgs::from_str("repos"), Ok(ShowArgs::Repos));
    assert_eq!("repos".parse::<ShowArgs>(), Ok(ShowArgs::Repos));
}

#[test]
fn show_args_from_another_word() {
    assert_eq!(
        ShowArgs::from_str("users"),
        Err("users is not a known entity and thus cannot be shown.".to_string())
    );
    assert_eq!(
        "Repos".parse::<ShowArgs>(),
        Err("Repos is not a known entity and thus cannot be shown.".to_string())
    );
    assert_eq!(
        ShowArgs::from_str(""),
        Err(" is not a known entity and thus cannot be shown.".to_string())
    );
}

#[test]
fn register_tracks_a_git_link() {
    let data = registered();
    assert_eq!(
        data.git_links.get("team/project"),
        Some(&"https://example.com/team/project.git".to_string())
    );
    assert_eq!(data.git_links.get("alpha/one"), Some(&"https://example.com/alpha/one.git".to_string()));
    assert_eq!(data.git_links.get("team"), None);
}

#[test]
fn register_refuses_what_is_no_git_link() {
    let mut data = Data::new();
    assert_eq!(resgister(&mut data, "https://example.com/team/project"), "that is not a valiud git link");
    assert_eq!(resgister(&mut data, "team/project.git"), "that is not a valiud git link");
    assert_eq!(resgister(&mut data, "https://example.com/team/project.git?x=1"), "that is not a valiud git link");
    assert_eq!(data, Data::new());
    assert_eq!(show(&data, ShowArgs::Repos), "[]");
}

#[test]
fn register_again_replaces_the_url() {
    let mut data = registered();
    resgister(&mut data, "https://mirror.example.org/team/project.git");
    assert_eq!(
        data.git_links.get("team/project"),
        Some(&"https://mirror.example.org/team/project.git".to_string())
    );
    assert_eq!(show(&data, ShowArgs::Repos), "[\"alpha/one\", \"team/project\"]");
}

#[test]
fn register_parsed_takes_the_parts_as_given() {
    let mut data = Data::new();
    let response = register_parsed(&mut data, Some(("ssh://host/x/y.git".to_string(), "/x/y.git".to_string())));
    assert_eq!(response, "added. now tracking the requested repo.");
    assert_eq!(data.git_links.get("x/y"), Some(&"ssh://host/x/y.git".to_string()));
    assert_eq!(register_parsed(&mut data, None), "that is not a valiud git link");
    assert_eq!(
        register_parsed(&mut data, Some(("ssh://host/x/y".to_string(), "/x/y".to_string()))),
        "that is not a valiud git link"
    );
}

#[test]
fn show_lists_the_repos_in_order() {
    let mut data = registered();
    resgister(&mut data, "https://example.com/Zeta/two.git");
    assert_eq!(show(&data, ShowArgs::Repos), "[\"Zeta/two\", \"alpha/one\", \"team/project\"]");
    assert_eq!(shown_repos(&data), vec!["Zeta/two", "alpha/one", "team/project"]);
}

#[test]
fn show_escapes_names_as_debug_does() {
    let mut links = RepoLinks::new();
    links.insert("say \"hi\"".to_string(), "u".to_string());
    let data = Data { git_links: links };
    assert_eq!(show(&data, ShowArgs::Repos), "[\"say \\\"hi\\\"\"]");
}

#[test]
fn show_of_what_is_not_there_yet() {
    let data = registered();
    assert_eq!(show(&data, ShowArgs::Projects), "not yet programed");
    assert_eq!(show(&data, ShowArgs::Pipelines), "not yet programmed");
}

#[test]
fn load_of_a_tracked_repo_asks_for_a_clone() {
    let data = registered();
    let plan = load(&data, &BackendState::NotConfigured, "team/project");
    assert_eq!(
        plan,
        LoadPlan::Clone {
            url: "https://example.com/team/project.git".to_string(),
            response: "loaded team/project.".to_string(),
        }
    );
    let plan = load(&data, &BackendState::Available { repo: repo() }, "alpha/one");
    assert_eq!(
        plan,
        LoadPlan::Clone {
            url: "https://example.com/alpha/one.git".to_string(),
            response: "loaded alpha/one.".to_string(),
        }
    );
}

#[test]
fn load_of_an_unknown_repo() {
    let data = registered();
    assert_eq!(
        load(&data, &BackendState::NotConfigured, "nobody/nothing"),
        LoadPlan::Reply("unknown git repo nobody/nothing. try: `/show Repos`".to_string())
    );
}

#[test]
fn load_of_the_loaded_repo() {
    let data = registered();
    assert_eq!(
        load(&data, &BackendState::Available { repo: repo() }, "team/project"),
        LoadPlan::Reply("team/project is already loaded".to_string())
    );
}

#[test]
fn load_while_running() {
    let data = registered();
    let state = BackendState::RunningPipeline { repo: repo(), pipeline: "build".to_string() };
    assert_eq!(
        load(&data, &state, "alpha/one"),
        LoadPlan::Reply(
            "already running build from the repository, team/project. a new repo cant be loaded until the current pipeline finishes."
                .to_string()
        )
    );
}

#[test]
fn load_answer_when_the_clone_cannot_be_sent() {
    assert_eq!(clone_not_sent("channel closed"), "failed to clone repo. channel closed");
}

#[test]
fn run_without_a_repo() {
    assert_eq!(
        run(&BackendState::NotConfigured, "build"),
        RunPlan::Reply("must `/load` a repo before running a pipeline.".to_string())
    );
}

#[test]
fn run_with_a_repo_starts_the_pipeline() {
    assert_eq!(
        run(&BackendState::Available { repo: repo() }, "build"),
        RunPlan::Start {
            url: "https://example.com/team/project.git".to_string(),
            pipeline_name: "build".to_string(),
            response: "started pipline build. use `/logs` to get logs.".to_string(),
        }
    );
}

#[test]
fn run_while_running() {
    let state = BackendState::RunningPipeline { repo: repo(), pipeline: "build".to_string() };
    assert_eq!(
        run(&state, "test"),
        RunPlan::Reply(
            "already running build from the repository, team/project. a new pipline cant be run until the current pipeline finishes."
                .to_string()
        )
    );
}

#[test]
fn run_answer_at_the_end() {
    assert_eq!(run_response(Some("pipline failed! use `/logs to view logs.".to_string())), "pipline failed! use `/logs to view logs.");
    assert_eq!(run_response(None), "error retrieving logs.");
}

#[test]
fn links_keep_the_last_url_of_a_name() {
    let mut links = RepoLinks::new();
    assert_eq!(links.names(), Vec::<String>::new());
    links.insert("b".to_string(), "1".to_string());
    links.insert("a".to_string(), "2".to_string());
    links.insert("b".to_string(), "3".to_string());
    assert_eq!(links.get("b"), Some(&"3".to_string()));
    assert_eq!(links.get("a"), Some(&"2".to_string()));
    assert_eq!(links.get("c"), None);
    assert_eq!(links.names(), vec!["a", "b"]);
}

#[test]
fn links_names_are_ascending_and_listed_once() {
    let mut links = RepoLinks::new();
    for name in ["m", "a", "z", "b", "a", "é", "m", "", "ab"] {
        links.insert(name.to_string(), "u".to_string());
    }
    assert_eq!(links.names(), vec!["", "a", "ab", "b", "m", "z", "é"]);
    let mut expected: Vec<String> = links.names();
    expected.sort();
    assert_eq!(links.names(), expected);
}

#[test]
fn register_keeps_an_extension_inside_the_path() {
    let mut data = Data::new();
    let link = "https://example.com/my.github/proj.git";
    assert_eq!(resgister(&mut data, link), "added. now tracking the requested repo.");
    assert_eq!(data.git_links.get("my.github/proj"), Some(&link.to_string()));
    assert_eq!(data.git_links.get("myhub/proj"), None);
    assert_eq!(show(&data, ShowArgs::Repos), "[\"my.github/proj\"]");
}

#[test]
fn reply_of_the_registration_end_point() {
    assert_eq!(
        registered_reply("https://example.com/team/project.git"),
        "git repo \"https://example.com/team/project.git\" registered successfully"
    );
    assert_eq!(registered_reply(""), "git repo \"\" registered successfully");
}

#[test]
fn links_with_the_same_urls_are_equal() {
    let mut one = RepoLinks::new();
    one.insert("b".to_string(), "1".to_string());
    one.insert("a".to_string(), "2".to_string());
    one.insert("b".to_string(), "3".to_string());
    let mut other = RepoLinks::new();
    other.insert("a".to_string(), "2".to_string());
    other.insert("b".to_string(), "3".to_string());
    assert_eq!(one, other);
    other.insert("a".to_string(), "4".to_string());
    assert_ne!(one, other);
}
