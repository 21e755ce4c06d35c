//! The ways in which a command fails.

use vstd::prelude::*;

verus! {

/// Why a command was rejected or failed.
#[derive(Debug, Clone, Copy, PartialEq, Eq, Structural)]
pub enum ErrorKind {
    /// The backend's state does not let the operation start.
    NotReady,
    /// The checkout holds no configuration file.
    ConfigMissing,
    /// The configuration file is no table of pipelines.
    ConfigInvalid,
    /// The configuration file does not define the pipeline asked for.
    PipelineNotFound,
    /// The old checkout could not be removed, or the clone failed.
    RepositoryOpFailed,
    /// The container engine ran and could not build the image.
    ContainerBuildFailed,
    /// The container engine ran and could not run the container.
    ContainerRunFailed,
    /// The container engine could not be started at all.
    EngineUnavailable,
}

/// A failed command: the kind of failure and the words for the operator.
#[derive(Debug, PartialEq, Eq)]
pub struct BackendError {
    pub kind: ErrorKind,
    pub message: String,
}

/// What a [`BackendError`] holds.
pub struct BackendErrorView {
    pub kind: ErrorKind,
    pub message: Seq<char>,
}

impl View for BackendError {
    type V = BackendErrorView;

    open spec fn view(&self) -> BackendErrorView {
        BackendErrorView { kind: self.kind, message: self.message@ }
    }
}

impl DeepView for BackendError {
    type V = BackendErrorView;

    open spec fn deep_view(&self) -> BackendErrorView {
        self@
    }
}

impl Clone for BackendError {
    fn clone(&self) -> (r: Self)
        ensures
            r@ == self@,
    {
        BackendError { kind: self.kind, message: self.message.clone() }
    }
}

impl BackendError {
    /// The words for the operator.
    pub fn to_string(&self) -> (s: String)
        ensures
            s@ == self@.message,
    {
        self.message.clone()
    }
}

} // verus!
