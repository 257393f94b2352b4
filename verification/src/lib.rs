//! The orchestration core of a script engine that is embedded in a host and
//! driven as an actor.
//!
//! Callers hand an instance code to evaluate and get answers back, at once
//! or when a pending value has settled, and scripts call functions of the
//! host and wait for their results. This crate decides what happens on each
//! of these occasions. It owns no engine, no thread and no channel: the
//! shell around it does, reports what happens and carries out what it is
//! told.
//!
//! - [`error`]: the failures that a caller can be told of.
//! - [`runtimes`]: the registry of the instances and their owners.
//! - [`worker`]: the worker of one instance, as a state machine from event
//!   to action, with its pending table.
//! - [`callback`]: the way of a call from a script to the owner of its
//!   instance.
//! - [`runtime`]: what a caller is told of an operation on a handle.
//! - [`script`]: the texts that go into the engine and the instance id that
//!   comes back out of it.
//! - [`laws`]: what holds of every worker.
//! - [`json`] and [`slots`]: values of `serde_json` and tables of `slab`, as
//!   far as the rest relies on them.

pub mod callback;
pub mod error;
pub mod json;
pub mod laws;
pub mod runtime;
pub mod runtimes;
pub mod script;
pub mod slots;
pub mod worker;
