//! Verified decision logic for a PID-namespace launcher.
//!
//! The launcher runs an arbitrary command as PID 1 of a fresh Linux PID
//! namespace: it spawns a namespace manager inside the new namespace, the
//! manager irrevocably drops every capability and only then spawns a
//! short-lived runner, and the runner replaces its own image with the
//! target command.  Every layer that spawns a child reaps its descendants
//! until none remain.
//!
//! This crate holds the logic of that pipeline — command validation,
//! spawn-request construction, clone-flag composition, the child-reaping
//! state machine, and the phase ordering that keeps privilege drops ahead
//! of user code — as verified functions over plain values.  The thin
//! process layer around it (the actual `clone`, `waitid` and `execvp`
//! calls) performs each requested action and feeds the observed result
//! back into these functions.

pub mod command;
pub mod launcher;
pub mod manager;
pub mod reap;
pub mod runner;
pub mod spawn;
