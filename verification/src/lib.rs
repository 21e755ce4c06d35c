//! Orchestration backend of a single-tenant CI/CD service: the repository and
//! pipeline state machine, the command processor, the pipeline definitions and
//! the container build/run sequence, as pure decisions over plain values.
//!
//! Nothing here touches the network, the disk or the container engine. The
//! backend says what is to be done; its driver does it and reports back.

pub mod backend;
pub mod ci_cd;
pub mod error;
pub mod frontend;
pub mod laws;
pub mod links;
pub mod order;
pub mod pipeline;
pub mod processor;
pub mod repo;
pub mod runner;
pub mod script;
pub mod state;
pub mod text;

pub use frontend::{load, resgister, run, show, Data, ShowArgs};
