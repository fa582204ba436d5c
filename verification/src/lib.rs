//! A tool that runs workflow scripts and keeps track of them.
//!
//! A request starts a run, asks how the runs are, or cancels one. A run executes a script that
//! hands tasks to sub-agents. What the tool knows and decides is here: how a request is read
//! (`action`, `request`, `source`), what is kept of a run and how it is reported (`record`,
//! `runs`, `document`), how the ends of tasks reach those who wait for them (`driver`,
//! `completion`), and how all of it changes together (`tool`). `request_laws`, `run_laws` and
//! `agent_laws` say what the calls are for, and `laws` what holds of the whole through time. The
//! engine of the scripts, the agents and the files are for the caller to bring.

pub mod action;
pub mod agent_laws;
pub mod clock;
pub mod completion;
pub mod document;
pub mod driver;
pub mod error;
pub mod json;
pub mod laws;
pub mod record;
pub mod request;
pub mod request_laws;
pub mod run_laws;
pub mod runs;
pub mod schema;
pub mod source;
pub mod sync;
pub mod table;
pub mod text;
pub mod tool;

pub use crate::tool::WorkflowTool;
