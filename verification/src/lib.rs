//! A benchmark execution engine for backing stores.
//!
//! A run prepares the store once and then drives three phases over it:
//! writes, reads and deletes. In each phase a pool of workers drains one
//! shared sequence of sample indices; the first failure aborts the phase and
//! ends the run.
//!
//! The library decides and keeps state; it never sleeps, reads a clock,
//! prints or talks to a store other than the in-memory one. Its caller
//! performs what the library asks for and hands the outcome back.
//!
//! - [`benchmark`]: the orchestrator of a run.
//! - [`waiter`]: the bounded retry that obtains the first client.
//! - [`distributor`], [`progress`]: the shared counters of a phase.
//! - [`phase_model`], [`phase_laws`]: the steps of a phase and what holds
//!   of every interleaving of them.
//! - [`phase`], [`shared`]: the phase runner, sequential and lock-free.
//! - [`record`]: the sample records and their generator.
//! - [`dry`], [`round_trip`]: the in-memory store and what the phases do
//!   to it.
//! - [`docker`], [`database`]: the databases and their containers.

pub mod benchmark;
pub mod database;
pub mod distributor;
pub mod docker;
pub mod dry;
pub mod operation;
pub mod phase;
pub mod phase_laws;
pub mod phase_model;
pub mod progress;
pub mod record;
pub mod round_trip;
pub mod shared;
pub mod waiter;
