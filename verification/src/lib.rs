//! A verified core for an interactive command interpreter.
//!
//! The library decides everything about a command pipeline that can be
//! decided without touching the operating system: how each stage's standard
//! streams are wired, in what order stages are spawned and waited on, when
//! the parent must let go of a channel end, and how per-stage outcomes are
//! aggregated.  An unverified front end performs the actual process spawns
//! and waits, driven step by step by the [`executor::Executor`] state
//! machine.

pub mod dispatch;
pub mod executor;
pub mod parse;
pub mod stage;
pub mod wiring;
