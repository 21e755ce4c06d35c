//! The backend's types and entry points, under one roof.

pub use crate::backend::{Backend, CiCdCmd, Event, Request, Step};
pub use crate::error::{BackendError, ErrorKind};
pub use crate::pipeline::{ConfigFile, Pipeline, PipelineName, Pipelines, CACHE_DIR, PIPELINE_FILE};
pub use crate::processor::{run_backend, Input};
pub use crate::repo::{Repo, RepoName};
pub use crate::state::BackendState;
