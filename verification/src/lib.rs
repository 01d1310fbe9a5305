//! Verified core of the caushell session-analysis layers: command profiles
//! and their vocabulary, sequence windows, the session graph and the queries
//! over it (command, execution-unit, semantics, path, provenance, alias,
//! variable and nested-payload history, payload and startup-config sink
//! traces), taint-trace search, the runner's per-node working-directory
//! facts, the pending mutations that change the graph and the session
//! summary, with the records a session keeps of them, and the runner's
//! per-request context that stages those mutations.

pub mod sequence;
pub mod node_ids;
pub mod text;
pub mod taint;
pub mod projection;
pub mod order;
pub mod execution;
pub mod history;
pub mod context;
pub mod profile;
pub mod graph;
pub mod provenance;
pub mod path_usage;
pub mod alias;
pub mod nested;
pub mod flow;
pub mod variable;
pub mod semantics;
pub mod sink_trace;
pub mod path_facts;
pub mod facts;
pub mod command_profile;
pub mod node_view;
pub mod mutation;
pub mod session_mutation;
pub mod summary;
pub mod runner_context;

pub use sequence::{CommandSequenceNo, SequenceWindow};
