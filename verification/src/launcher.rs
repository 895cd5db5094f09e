//! The launcher: the first, still-privileged process.
//!
//! It validates the launch request, asks for the namespace manager to be
//! created as PID 1 of a fresh PID namespace, and then reaps its own
//! children until none remain.  Its exit code follows a deliberate
//! policy: failing to keep watching an otherwise healthy namespace is
//! tolerated, never fatal.

use crate::command::command_from_args;
use crate::reap::ReapOutcome;
use crate::spawn::{manager_spawn_request, EntryPoint, SpawnRequest, StackConfig};
use vstd::prelude::*;

verus! {

/// The exit code of a launch that discharged the launcher's own
/// responsibilities: the manager was created, and any later wait
/// failure only detaches the namespace.
pub const LAUNCHER_SUCCESS_CODE: i32 = 0;

/// The exit code of a launch that failed before supervision began:
/// an empty command, or a failed creation of the namespace root.
pub const LAUNCHER_FAILURE_CODE: i32 = 1;

/// How a whole launch ended, as seen by the launcher.
#[derive(Clone, Copy, Debug, PartialEq, Eq, Structural)]
pub enum LaunchOutcome {
    /// No command was given: the launch was rejected before any
    /// privileged action, and no process was created.
    UsageError,
    /// Creating the namespace root failed: there is no child to wait
    /// for, and no orphaned namespace is left behind.
    CreationFailed,
    /// The namespace root was created and the launcher's reaping loop
    /// ended with this outcome.
    Supervised(ReapOutcome),
}

/// Decides whether and what to create for a launch request.  An empty
/// invocation yields no spawn request at all — the launch fails before
/// any process creation is attempted — and every spawn request this
/// function yields asks for the namespace manager as PID 1 of a fresh
/// PID namespace.
pub fn plan_launch(args: &Vec<String>, cfg: &StackConfig) -> (r: Option<SpawnRequest>)
    ensures
        args@.len() <= 1 ==> r is None,
        args@.len() >= 2 ==> r is Some,
        (r matches Some(req) ==> req.entry == EntryPoint::NamespaceManager
            && req.new_pid_namespace && req.stack_size == cfg.manager_stack_size),
{
    match command_from_args(args) {
        Some(_) => Some(manager_spawn_request(cfg)),
        None => None,
    }
}

/// The launcher's exit code.  The policy is deliberate: a wait failure
/// after a successful creation is reported but tolerated — the
/// namespace root may legitimately keep running detached, and losing
/// the ability to monitor it must not be treated as a failed launch.
/// Every failure before that point exits non-zero.
pub fn launcher_exit_code(o: LaunchOutcome) -> (c: i32)
    ensures
        (c == LAUNCHER_SUCCESS_CODE) <==> (o matches LaunchOutcome::Supervised(_)),
        o == LaunchOutcome::UsageError ==> c == LAUNCHER_FAILURE_CODE,
        o == LaunchOutcome::CreationFailed ==> c == LAUNCHER_FAILURE_CODE,
{
    match o {
        LaunchOutcome::UsageError => LAUNCHER_FAILURE_CODE,
        LaunchOutcome::CreationFailed => LAUNCHER_FAILURE_CODE,
        LaunchOutcome::Supervised(_) => LAUNCHER_SUCCESS_CODE,
    }
}

} // verus!
