//! Coordination and execution logic of a distributed code-judging cluster:
//! language table, verdict rule, sandbox command composition, worker
//! registry and scheduling, and the per-job lifecycle state machine.

pub mod text;
pub mod language;
pub mod model;
pub mod verdict;
pub mod sandbox;
pub mod registry;
pub mod scheduler;
pub mod job;
pub mod controller;
pub mod tarball;
pub mod stream;
pub mod executor;
