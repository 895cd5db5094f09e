use nslaunch::launcher::{launcher_exit_code, LaunchOutcome};
use nslaunch::manager::{
    manager_drop_result, manager_exit_status, manager_reap_result, manager_spawn_result,
    ManagerPhase,
};
use nslaunch::reap::{run_reap, ReapOutcome, WaitEvent};
use nslaunch::runner::{classify_exec_return, ExecReturn};

#[test]
fn drop_report_fixes_the_phase() {
    // The phase after the capability drop is pinned to the primitive's
    // report: unprivileged only on success, abort-worthy failure
    // otherwise — never the other way round.
    assert_eq!(manager_drop_result(true), ManagerPhase::Unprivileged);
    assert_eq!(manager_drop_result(false), ManagerPhase::DropFailed);
}

#[test]
fn manager_reports_failure_when_runner_creation_fails() {
    let phase = manager_spawn_result(ManagerPhase::Unprivileged, -1);
    assert_eq!(phase, ManagerPhase::SpawnFailed);
    assert_eq!(manager_exit_status(phase), -1);
}

#[test]
fn manager_reports_success_after_clean_reaping() {
    let phase = manager_spawn_result(ManagerPhase::Unprivileged, 7);
    assert_eq!(phase, ManagerPhase::Supervising(7));
    let done = manager_reap_result(phase, ReapOutcome::AllReaped { any_abnormal: false });
    assert_eq!(manager_exit_status(done), 0);
}

#[test]
fn manager_reports_failure_on_wait_error() {
    let phase = manager_spawn_result(ManagerPhase::Unprivileged, 7);
    let done = manager_reap_result(phase, ReapOutcome::WaitError(libc::EINVAL));
    assert_eq!(manager_exit_status(done), -1);
}

#[test]
fn failed_runner_propagates_to_the_manager_status() {
    // A non-existent executable: the runner's image replacement fails
    // and it exits with the failure status; the manager reaps that
    // abnormal exit and itself reports failure to the launcher.
    assert_eq!(classify_exec_return(-1), ExecReturn::ReportFailure);
    let phase = manager_spawn_result(ManagerPhase::Unprivileged, 7);
    let events = vec![WaitEvent::ChildReaped { abnormal: true }, WaitEvent::NoChildren];
    let (outcome, waits) = run_reap(&events).unwrap();
    assert_eq!(waits, 2);
    assert_eq!(outcome, ReapOutcome::AllReaped { any_abnormal: true });
    let done = manager_reap_result(phase, outcome);
    assert_eq!(manager_exit_status(done), -1);
}

#[test]
fn launcher_exit_codes_follow_the_policy() {
    // Pre-creation failures exit non-zero; once the namespace root was
    // created, the launcher's own duties are discharged and it exits
    // zero, whatever its reaping loop then observed.
    assert_eq!(launcher_exit_code(LaunchOutcome::UsageError), 1);
    assert_eq!(launcher_exit_code(LaunchOutcome::CreationFailed), 1);
    assert_eq!(
        launcher_exit_code(LaunchOutcome::Supervised(ReapOutcome::AllReaped {
            any_abnormal: false
        })),
        0
    );
    assert_eq!(
        launcher_exit_code(LaunchOutcome::Supervised(ReapOutcome::AllReaped {
            any_abnormal: true
        })),
        0
    );
    assert_eq!(
        launcher_exit_code(LaunchOutcome::Supervised(ReapOutcome::WaitError(libc::EPERM))),
        0
    );
}

#[test]
fn runner_reports_failure_when_exec_fails() {
    // A failed image replacement (e.g. a non-existent executable) is
    // reported and the runner exits with the failure status.
    assert_eq!(classify_exec_return(-1), ExecReturn::ReportFailure);
    assert_eq!(nslaunch::runner::RUNNER_FAILURE_STATUS, -1);
}

#[test]
fn control_after_successful_exec_is_fatal() {
    assert_eq!(classify_exec_return(0), ExecReturn::FatalBug);
}
