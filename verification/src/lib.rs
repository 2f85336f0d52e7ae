//! Task and reservation scheduling for a population of agents in a
//! discrete-time simulation.
//!
//! Each tick, every agent is assigned a single objective (a [`task::Task`])
//! by a role-specific proposal pass that consults a shared reservation
//! [`ledger::Ledger`] so that agents do not over-commit to the same scarce
//! target. The execution engine then runs each agent's front queue entry
//! against a plain-value snapshot of the current tick's world, and the
//! movement phase batches all movement requests behind a compute-budget
//! gate. The world itself (object enumeration, target re-resolution, action
//! commands) is an external collaborator: callers pass its answers in as
//! plain values and perform the actions this library decides on.

pub mod constants;
pub mod engine;
pub mod ledger;
pub mod movement;
pub mod pos;
pub mod proposal;
pub mod role;
pub mod task;
pub mod worker;
