//! The namespace manager: PID 1 of the new PID namespace.
//!
//! Its life is a strict phase sequence: drop every retained capability
//! first, only then spawn the exec runner, then reap children until none
//! remain, and finally report success or failure to the launcher by its
//! own exit status.  The phases make the security-sensitive ordering
//! explicit: no path reaches the runner spawn while the capability set
//! is still populated, and a dropped capability set is never widened
//! again.

use crate::reap::ReapOutcome;
use vstd::prelude::*;

verus! {

/// The exit status the manager reports to the launcher on failure.
pub const MANAGER_FAILURE_STATUS: i32 = -1;

/// The exit status the manager reports when supervision completed
/// cleanly.
pub const MANAGER_SUCCESS_STATUS: i32 = 0;

/// The phases of the manager's life, in the order they may occur.
#[derive(Clone, Copy, Debug, PartialEq, Eq, Structural)]
pub enum ManagerPhase {
    /// Just entered: the capability set still holds whatever the
    /// launcher retained.  Nothing else may happen in this phase.
    Privileged,
    /// The capability drop failed.  This is a defect in the dropping
    /// primitive itself, never a normal runtime error: the process must
    /// abort at once rather than run user code with retained privilege.
    DropFailed,
    /// Every capability has been dropped; the runner may now be spawned.
    Unprivileged,
    /// The runner was created with this process id; the manager is
    /// reaping its children.
    Supervising(i32),
    /// Creating the runner failed; the manager exits with a failure
    /// status.
    SpawnFailed,
    /// Reaping ended with this outcome; the manager exits.
    Finished(ReapOutcome),
}

/// Whether a phase lies past the privilege-drop boundary: from these
/// phases on, the capability set is empty.
pub open spec fn caps_dropped(p: ManagerPhase) -> bool {
    match p {
        ManagerPhase::Privileged => false,
        ManagerPhase::DropFailed => false,
        ManagerPhase::Unprivileged => true,
        ManagerPhase::Supervising(_) => true,
        ManagerPhase::SpawnFailed => true,
        ManagerPhase::Finished(_) => true,
    }
}

/// The single phase from which the exec runner may be spawned.
pub open spec fn may_spawn_runner(p: ManagerPhase) -> bool {
    p == ManagerPhase::Unprivileged
}

/// The phases in which the manager's work is over and it reports an
/// exit status.
pub open spec fn manager_terminal(p: ManagerPhase) -> bool {
    ||| p == ManagerPhase::SpawnFailed
    ||| p matches ManagerPhase::Finished(_)
}

/// The transitions the manager may take.
pub open spec fn manager_step_allowed(p: ManagerPhase, q: ManagerPhase) -> bool {
    ||| (p == ManagerPhase::Privileged && (q == ManagerPhase::Unprivileged || q
        == ManagerPhase::DropFailed))
    ||| (p == ManagerPhase::Unprivileged && (q matches ManagerPhase::Supervising(_) || q
        == ManagerPhase::SpawnFailed))
    ||| ((p matches ManagerPhase::Supervising(_)) && (q matches ManagerPhase::Finished(_)))
}

/// Relies on caps::clear with the permitted set selected: it clears the
/// calling process's permitted and effective capability sets through the
/// kernel's capset interface and returns Ok exactly when the kernel
/// accepted the update.  Whether it succeeds depends on the process's
/// state, so nothing more is assumed of the result.
#[verifier::external_body]
fn clear_all_capabilities() -> (ok: bool) {
    caps::clear(None, caps::CapSet::Permitted).is_ok()
}

/// Fixes the phase the capability-drop report leads to: the
/// unprivileged phase exactly when the primitive reported success, and
/// the drop-failure phase — from which the process must abort, and from
/// which no runner can ever be spawned — exactly when it reported
/// failure.
pub fn manager_drop_result(ok: bool) -> (q: ManagerPhase)
    ensures
        (q == ManagerPhase::Unprivileged) <==> ok,
        (q == ManagerPhase::DropFailed) <==> !ok,
        manager_step_allowed(ManagerPhase::Privileged, q),
{
    if ok {
        ManagerPhase::Unprivileged
    } else {
        ManagerPhase::DropFailed
    }
}

/// The manager's first act: unconditionally drop every capability the
/// process retains.  The resulting phase is fixed by the primitive's
/// report — unprivileged only on a reported success, the drop-failure
/// phase otherwise — so a caller that obeys the phase machine can never
/// reach a runner spawn with privilege retained.
pub fn manager_drop_privileges(p: ManagerPhase) -> (q: ManagerPhase)
    requires
        p == ManagerPhase::Privileged,
    ensures
        q == ManagerPhase::Unprivileged || q == ManagerPhase::DropFailed,
        manager_step_allowed(p, q),
{
    manager_drop_result(clear_all_capabilities())
}

/// Records the outcome of the runner-creation call, which is permitted
/// only in the unprivileged phase: a positive process id moves the
/// manager to supervision, anything else to the spawn-failure phase.
pub fn manager_spawn_result(p: ManagerPhase, ret: i32) -> (q: ManagerPhase)
    requires
        may_spawn_runner(p),
    ensures
        ret > 0 ==> q == ManagerPhase::Supervising(ret),
        ret <= 0 ==> q == ManagerPhase::SpawnFailed,
        caps_dropped(q),
        manager_step_allowed(p, q),
{
    if ret > 0 {
        ManagerPhase::Supervising(ret)
    } else {
        ManagerPhase::SpawnFailed
    }
}

/// Records the outcome of the manager's reaping loop, ending the
/// supervision phase.
pub fn manager_reap_result(p: ManagerPhase, o: ReapOutcome) -> (q: ManagerPhase)
    requires
        p matches ManagerPhase::Supervising(_),
    ensures
        q == ManagerPhase::Finished(o),
        manager_step_allowed(p, q),
{
    ManagerPhase::Finished(o)
}

/// The status the manager's process reports to the launcher: success
/// exactly when the runner was created, every child was reaped, and
/// none of them failed.  Creation failure, a wait error, and a child
/// that exited abnormally — a runner whose image replacement failed —
/// all propagate as the failure status.
pub fn manager_exit_status(p: ManagerPhase) -> (s: i32)
    requires
        manager_terminal(p),
    ensures
        (s == MANAGER_SUCCESS_STATUS) <==> p == ManagerPhase::Finished(
            ReapOutcome::AllReaped { any_abnormal: false },
        ),
        s == MANAGER_SUCCESS_STATUS || s == MANAGER_FAILURE_STATUS,
{
    match p {
        ManagerPhase::Finished(ReapOutcome::AllReaped { any_abnormal: false }) => {
            MANAGER_SUCCESS_STATUS
        },
        _ => MANAGER_FAILURE_STATUS,
    }
}

/// Privilege is dropped before user code can run: the only phase from
/// which the runner may be spawned lies past the privilege-drop
/// boundary, so the target command never starts with a retained
/// capability set.
pub proof fn lemma_spawn_needs_dropped_caps(p: ManagerPhase)
    ensures
        may_spawn_runner(p) ==> caps_dropped(p),
{
}

/// Capabilities are monotonically reduced: no allowed transition leads
/// from a phase past the privilege-drop boundary back to one before it,
/// so a dropped capability set is never recreated or widened.
pub proof fn lemma_caps_never_reacquired(p: ManagerPhase, q: ManagerPhase)
    requires
        manager_step_allowed(p, q),
        caps_dropped(p),
    ensures
        caps_dropped(q),
{
}

/// Supervision is reached only from the unprivileged phase: any allowed
/// transition into a supervising phase starts at the one phase where the
/// capability set is already empty.
pub proof fn lemma_supervision_follows_drop(p: ManagerPhase, q: ManagerPhase)
    requires
        manager_step_allowed(p, q),
        q matches ManagerPhase::Supervising(_),
    ensures
        p == ManagerPhase::Unprivileged,
        caps_dropped(p),
{
}

} // verus!
