use discord_ci_cd::repo::{is_git_link, repo_name_from_path, Repo};

#[test]
fn repo_from_a_clone_url() {
    let repo = Repo::from_url("https://github.com/user/project.git").unwrap();
    assert_eq!(repo.repo_name, "user/project");
    assert_eq!(repo.url, "https://github.com/user/project.git");
}

#[test]
fn repo_url_is_the_serialization_of_the_parser() {
    let repo = Repo::from_url("HTTPS://GitHub.com:443/user/My Project.git").unwrap();
    assert_eq!(repo.url, "https://github.com/user/My%20Project.git");
    assert_eq!(repo.repo_name, "user/My%20Project");
}

#[test]
fn repo_name_leaves_query_and_fragment_out() {
    let repo = Repo::from_url("https://example.com/a/b.git?ref=main#top").unwrap();
    assert_eq!(repo.repo_name, "a/b");
    assert_eq!(repo.url, "https://example.com/a/b.git?ref=main#top");
}

#[test]
fn repo_from_what_is_no_url() {
    assert_eq!(Repo::from_url("user/project.git"), None);
    assert_eq!(Repo::from_url(""), None);
    assert_eq!(Repo::from_url("https://"), None);
}

#[test]
fn repo_name_from_path_strips_slash_and_extension() {
    assert_eq!(repo_name_from_path("/user/project.git"), "user/project");
    assert_eq!(repo_name_from_path("/project.git"), "project");
    assert_eq!(repo_name_from_path("/"), "");
    assert_eq!(repo_name_from_path(""), "");
    assert_eq!(repo_name_from_path("/user/project"), "user/project");
}

#[test]
fn repo_name_from_path_removes_only_the_first_slash() {
    assert_eq!(repo_name_from_path("//a//b.git"), "/a//b");
    assert_eq!(repo_name_from_path("a/b"), "ab");
}

#[test]
fn repo_name_from_path_strips_only_the_extension_at_the_end() {
    assert_eq!(repo_name_from_path("/my.github/proj.git"), "my.github/proj");
    assert_eq!(repo_name_from_path("/a.git/b.git"), "a.git/b");
    assert_eq!(repo_name_from_path("/x.git.git"), "x.git");
    assert_eq!(repo_name_from_path("/a.git/b"), "a.git/b");
    assert_eq!(repo_name_from_path("/.git"), "");
    assert_eq!(repo_name_from_path("/a.gi"), "a.gi");
    assert_eq!(repo_name_from_path("/a.git/"), "a.git/");
}

#[test]
fn repo_name_from_path_agrees_with_std() {
    for path in ["/user/project.git", "//x.git.git/y", "/.gi.gitt", "/ünï/cödé.git", "no-slash.git", "/a/.git"] {
        let without_slash = path.replacen("/", "", 1);
        let expected = without_slash.strip_suffix(".git").unwrap_or(&without_slash);
        assert_eq!(repo_name_from_path(path), expected);
    }
}

#[test]
fn repo_with_the_extension_inside_its_path() {
    let repo = Repo::from_url("https://example.com/my.github/proj.git").unwrap();
    assert_eq!(repo.repo_name, "my.github/proj");
    assert_eq!(repo.url, "https://example.com/my.github/proj.git");
}

#[test]
fn git_links_end_with_the_extension() {
    assert!(is_git_link("https://github.com/user/project.git"));
    assert!(is_git_link(".git"));
    assert!(!is_git_link("https://github.com/user/project"));
    assert!(!is_git_link("https://github.com/user/project.git/"));
    assert!(!is_git_link("git"));
    assert!(!is_git_link(""));
}

#[test]
fn repos_compare_by_name_then_url() {
    let a = Repo { repo_name: "a".to_string(), url: "z".to_string() };
    let b = Repo { repo_name: "b".to_string(), url: "a".to_string() };
    let a2 = Repo { repo_name: "a".to_string(), url: "zz".to_string() };
    assert!(a < b);
    assert!(a < a2);
    assert_eq!(a.clone(), a);
    assert_ne!(a, a2);
}

#[test]
fn repo_from_the_parts_of_a_url() {
    let repo = Repo::from_parts("ssh://git@host/team/tool.git".to_string(), "/team/tool.git");
    assert_eq!(repo, Repo { repo_name: "team/tool".to_string(), url: "ssh://git@host/team/tool.git".to_string() });
}
