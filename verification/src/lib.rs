//! The decisions of Aegira, a local recovery engine: which rule fits an incident,
//! what it restarts, how often it is checked whether that helped, when and how a
//! developer is called, and which lines of the monitored log count at all.
//!
//! Nothing here touches the machine. Work that does alternates with decisions:
//! each of `watcher`, `incident`, `recovery` and `escalation` takes the answer to
//! its last request and returns the lines for the incident log and its next
//! request.
pub mod command;
pub mod escalation;
pub mod incident;
pub mod loading;
pub mod outside;
pub mod recovery;
pub mod remedy;
pub mod rules;
pub mod text;
pub mod watcher;
