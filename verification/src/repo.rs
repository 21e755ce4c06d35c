//! A source repository: its clone URL and the name derived from it.

use crate::text::{
    chars_of, ends_with, has_suffix, remove_first, remove_suffix, string_of, without_first,
    without_suffix,
};
use url::Url;
use vstd::prelude::*;

verus! {

pub type RepoName = String;

/// A repository that can be checked out: a name and the URL it is cloned from.
/// Repositories compare by name, then by URL.
#[derive(Debug, PartialEq, Eq, PartialOrd, Ord)]
pub struct Repo {
    pub repo_name: RepoName,
    pub url: String,
}

/// What a [`Repo`] holds, as sequences of characters.
pub struct RepoView {
    pub repo_name: Seq<char>,
    pub url: Seq<char>,
}

impl View for Repo {
    type V = RepoView;

    open spec fn view(&self) -> RepoView {
        RepoView { repo_name: self.repo_name@, url: self.url@ }
    }
}

impl Clone for Repo {
    fn clone(&self) -> (r: Self)
        ensures
            r@ == self@,
    {
        Repo { repo_name: self.repo_name.clone(), url: self.url.clone() }
    }
}

/// The extension that a clone URL ends with.
pub open spec fn git_extension() -> Seq<char> {
    seq!['.', 'g', 'i', 't']
}

/// The repository name for a URL's path: the path without its first slash
/// and, where that ends with `.git`, without this extension. A `.git` that
/// stands anywhere else in the path belongs to the name.
pub open spec fn repo_name_of(path: Seq<char>) -> Seq<char> {
    without_suffix(without_first(path, '/'), git_extension())
}

/// What `Url::parse` makes of `input`: `None` where it is no absolute URL,
/// else the URL's serialization and its path.
pub uninterp spec fn parsed_url(input: Seq<char>) -> Option<(Seq<char>, Seq<char>)>;

/// Parses `input` with `url::Url::parse`. The result is that of the parser, as
/// plain strings: the serialization (`Url::as_str`) and the path (`Url::path`)
/// of the URL, or `None` where the parser returns an error.
#[verifier::external_body]
pub(crate) fn parse_url(input: &str) -> (r: Option<(String, String)>)
    ensures
        r is Some <==> parsed_url(input@) is Some,
        r matches Some(parts) ==> (parts.0@, parts.1@) == parsed_url(input@)->0,
{
    match Url::parse(input) {
        Ok(url) => Some((url.as_str().to_string(), url.path().to_string())),
        Err(_) => None,
    }
}

fn extension() -> (v: Vec<char>)
    ensures
        v@ == git_extension(),
{
    let v = vec!['.', 'g', 'i', 't'];
    assert(v@ =~= git_extension());
    v
}

/// Whether `link` ends with `.git`, as the link to a git repository does.
pub fn is_git_link(link: &str) -> (r: bool)
    ensures
        r == has_suffix(link@, git_extension()),
{
    ends_with(&chars_of(link), &extension())
}

/// The repository name for the path of a clone URL.
pub fn repo_name_from_path(path: &str) -> (name: RepoName)
    ensures
        name@ == repo_name_of(path@),
{
    let stripped = remove_first(&chars_of(path), '/');
    string_of(&remove_suffix(&stripped, &extension()))
}

/// The repository that `parsed_url` describes, if any.
pub open spec fn repo_of(input: Seq<char>) -> Option<RepoView> {
    match parsed_url(input) {
        Some(parts) => Some(RepoView { repo_name: repo_name_of(parts.1), url: parts.0 }),
        None => None,
    }
}

impl Repo {
    /// The repository behind a URL that was taken apart: it keeps the URL's
    /// serialization and is named after the URL's path.
    pub fn from_parts(serialization: String, path: &str) -> (repo: Repo)
        ensures
            repo@ == (RepoView { repo_name: repo_name_of(path@), url: serialization@ }),
    {
        Repo { repo_name: repo_name_from_path(path), url: serialization }
    }

    /// The repository behind a clone URL: `None` where `link` is no URL, else
    /// the repository named after the URL's path, with the URL as the parser
    /// serializes it.
    pub fn from_url(link: &str) -> (r: Option<Repo>)
        ensures
            r is Some <==> repo_of(link@) is Some,
            r matches Some(repo) ==> repo@ == repo_of(link@)->0,
    {
        match parse_url(link) {
            Some(parts) => Some(Repo::from_parts(parts.0, parts.1.as_str())),
            None => None,
        }
    }
}

} // verus!
