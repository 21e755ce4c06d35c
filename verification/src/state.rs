//! The backend's state: idle without a repository, idle with one, or running
//! a pipeline of one.

use crate::pipeline::PipelineName;
use crate::repo::{Repo, RepoView};
use vstd::prelude::*;

verus! {

/// Where the backend stands. Exactly one of the three holds at any time.
#[derive(Debug, PartialEq, Eq, PartialOrd, Ord)]
pub enum BackendState {
    /// a pipeline is running
    RunningPipeline { repo: Repo, pipeline: PipelineName },
    /// available to run pipelines
    Available { repo: Repo },
    /// no repository is loaded
    NotConfigured,
}

/// What a [`BackendState`] holds.
pub enum BackendStateView {
    RunningPipeline { repo: RepoView, pipeline: Seq<char> },
    Available { repo: RepoView },
    NotConfigured,
}

impl View for BackendState {
    type V = BackendStateView;

    open spec fn view(&self) -> BackendStateView {
        match self {
            BackendState::RunningPipeline { repo, pipeline } => BackendStateView::RunningPipeline {
                repo: repo@,
                pipeline: pipeline@,
            },
            BackendState::Available { repo } => BackendStateView::Available { repo: repo@ },
            BackendState::NotConfigured => BackendStateView::NotConfigured,
        }
    }
}

impl BackendStateView {
    /// The state in which `pipeline` runs, entered from this one: there is one
    /// only where a repository is loaded and idle.
    pub open spec fn started(self, pipeline: Seq<char>) -> Option<BackendStateView> {
        match self {
            BackendStateView::Available { repo } => Some(
                BackendStateView::RunningPipeline { repo, pipeline },
            ),
            _ => None,
        }
    }

    /// The state after the running pipeline has ended, however it ended: the
    /// same repository, idle. A state in which nothing runs stays as it is.
    pub open spec fn finished(self) -> BackendStateView {
        match self {
            BackendStateView::RunningPipeline { repo, pipeline } => BackendStateView::Available {
                repo,
            },
            other => other,
        }
    }

    /// Whether a repository may be cloned now: not while a pipeline runs.
    pub open spec fn accepts_clone(self) -> bool {
        !(self is RunningPipeline)
    }
}

impl Default for BackendState {
    fn default() -> (r: Self)
        ensures
            r@ == BackendStateView::NotConfigured,
    {
        BackendState::NotConfigured
    }
}

impl Clone for BackendState {
    fn clone(&self) -> (r: Self)
        ensures
            r@ == self@,
    {
        match self {
            BackendState::RunningPipeline { repo, pipeline } => BackendState::RunningPipeline {
                repo: repo.clone(),
                pipeline: pipeline.clone(),
            },
            BackendState::Available { repo } => BackendState::Available { repo: repo.clone() },
            BackendState::NotConfigured => BackendState::NotConfigured,
        }
    }
}

impl BackendState {
    /// The state in which `pipeline` runs, where this state lets one start.
    pub fn started(&self, pipeline: &str) -> (r: Option<BackendState>)
        ensures
            r.is_some() <==> self@.started(pipeline@) is Some,
            r matches Some(next) ==> next@ == self@.started(pipeline@)->0,
    {
        match self {
            BackendState::Available { repo } => Some(
                BackendState::RunningPipeline { repo: repo.clone(), pipeline: pipeline.to_owned() },
            ),
            _ => None,
        }
    }

    /// The state after the running pipeline has ended.
    pub fn finished(&self) -> (r: BackendState)
        ensures
            r@ == self@.finished(),
    {
        match self {
            BackendState::RunningPipeline { repo, pipeline } => BackendState::Available {
                repo: repo.clone(),
            },
            other => other.clone(),
        }
    }

    /// Whether a repository may be cloned now.
    pub fn accepts_clone(&self) -> (r: bool)
        ensures
            r == self@.accepts_clone(),
    {
        match self {
            BackendState::RunningPipeline { .. } => false,
            _ => true,
        }
    }
}

} // verus!
