//! A verified core for an autonomous backend-developer agent.
//!
//! The agent turns a project description into working server code through a
//! closed generate / build / run / verify / fix loop. This crate holds the
//! part of that loop with real state and failure handling: the bounded-retry
//! state machine, the route-descriptor filtering rule, the probe verdicts,
//! and the prompt assembly. The outside collaborators (the code oracle, the
//! build tool, the supervised server process, the terminal) are driven by an
//! unverified shell that performs each requested action and hands the result
//! back as an event.

pub mod agent;
pub mod console;
pub mod factsheet;
pub mod llm;
pub mod probes;
pub mod routes;
